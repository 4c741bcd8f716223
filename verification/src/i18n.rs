//! Loader for the `Languages/*.xml` files, whose format is fixed:
//!
//! ```xml
//! <strings>
//!   <language name="English" base="English" variant="Normal" code="en" isDefault="true" />
//!   <string key="PlayerJoined">
//!     <value>{0} has joined the game.</value>
//!     <value>{0} joined! Welcome.</value>
//!   </string>
//! </strings>
//! ```
//!
//! `<value>` content is kept verbatim, markup included: language files embed
//! Telegram HTML (`Some <b>bold</b> text`), which is legal mixed-content XML.
//! The document is read as a stream of events (by `quick_xml`), turned into
//! plain values (`XmlEvent`), and `parse_events` interprets that stream: the
//! `<language>` tag gives the metadata, each `<string>` a key and its
//! values, rebuilt from the events inside each `<value>`.

use vstd::prelude::*;
use std::io::Cursor;
use quick_xml::events::attributes::Attributes;
use quick_xml::events::Event::{CData, Comment, Decl, DocType, Empty, End, Eof, Start, Text, PI};
use quick_xml::Reader;
use vstd::utf8::{decode_utf8, valid_utf8};

verus! {

#[verifier::external_type_specification]
#[verifier::external_body]
#[verifier::reject_recursive_types(R)]
pub struct ExXmlReader<R>(Reader<R>);

#[verifier::external_type_specification]
#[verifier::external_body]
#[verifier::reject_recursive_types(T)]
pub struct ExByteCursor<T>(Cursor<T>);

/// The kinds of XML events.
#[derive(Debug, Clone, Copy, PartialEq, Eq, Structural)]
pub enum XmlKind {
    Start,
    End,
    Empty,
    Text,
    CData,
    Comment,
    Decl,
    PI,
    DocType,
    Eof,
}

/// One event of an XML document as plain values: its kind, its content (the
/// bytes between the event's delimiters: a tag's name and attributes, a
/// text, a comment's body) and, for tags, the length of the tag's name at
/// the start of that content.
#[derive(Debug, Clone)]
pub struct XmlEvent {
    pub kind: XmlKind,
    pub content: Vec<u8>,
    pub name_len: usize,
}

/// The model of an `XmlEvent`.
pub struct XmlEventModel {
    pub kind: XmlKind,
    pub content: Seq<u8>,
    pub name_len: nat,
}

impl View for XmlEvent {
    type V = XmlEventModel;

    open spec fn view(&self) -> XmlEventModel {
        XmlEventModel { kind: self.kind, content: self.content@, name_len: self.name_len as nat }
    }
}

/// The model of one read: an event, or the reader's error message.
pub open spec fn step_view(s: Result<XmlEvent, String>) -> Result<XmlEventModel, Seq<char>> {
    match s {
        Ok(e) => Ok(e@),
        Err(m) => Err(m@),
    }
}

/// The model of a run of reads.
pub open spec fn steps_view(s: Seq<Result<XmlEvent, String>>) -> Seq<Result<XmlEventModel, Seq<char>>> {
    s.map_values(|x: Result<XmlEvent, String>| step_view(x))
}

/// A read after which there is nothing more to read: an error or the end.
pub open spec fn is_terminal(s: Result<XmlEventModel, Seq<char>>) -> bool {
    match s {
        Err(_) => true,
        Ok(e) => e.kind == XmlKind::Eof,
    }
}

/// The reads a fresh reader makes of a document (text kept as written), up
/// to and including the first end of file or error.
pub uninterp spec fn document_events(text: Seq<char>) -> Seq<Result<XmlEventModel, Seq<char>>>;

/// The reads a reader has yet to make, up to and including the first end of
/// file or error.
pub uninterp spec fn pending_events(r: Reader<Cursor<Vec<u8>>>) -> Seq<Result<XmlEventModel, Seq<char>>>;

/// The attributes `quick_xml` reads from a tag's content whose name is
/// `name_len` bytes long, as (key, raw value) pairs, malformed ones left out.
pub uninterp spec fn attributes_of(content: Seq<u8>, name_len: nat) -> Seq<(Seq<u8>, Seq<u8>)>;

/// What `String::from_utf8_lossy` makes of some bytes.
pub uninterp spec fn lossy_utf8(bytes: Seq<u8>) -> Seq<char>;

/// Calls `quick_xml::Reader::from_reader` on the text's bytes and sets
/// `trim_text(false)`, so that the spaces around inline markup inside a
/// `<value>` reach the rebuilt value (whitespace between elements is skipped
/// by the readers, and each rebuilt value is trimmed as a whole). Claimed: the reads
/// the reader will make are the document's reads, a function of the text
/// alone; that sequence is finite, ends with the first end of file or error,
/// and holds no earlier one.
#[verifier::external_body]
fn new_reader(text: &str) -> (r: Reader<Cursor<Vec<u8>>>)
    ensures
        pending_events(r) == document_events(text@),
        pending_events(r).len() > 0,
        is_terminal(pending_events(r).last()),
        forall|i: int| 0 <= i < pending_events(r).len() - 1 ==> !is_terminal(#[trigger] pending_events(r)[i]),
{
    let mut reader = Reader::from_reader(Cursor::new(text.as_bytes().to_vec()));
    reader.config_mut().trim_text(false);
    reader
}

/// Calls `quick_xml::Reader::read_event_into` and turns the event into plain
/// values: its kind, its content (the event dereferenced to bytes) and the
/// length of a start or empty tag's name (the content's length otherwise);
/// an error becomes its message. Claimed: this is
/// the reader's next pending read, and the rest stay pending.
#[verifier::external_body]
fn next_event(reader: &mut Reader<Cursor<Vec<u8>>>) -> (r: Result<XmlEvent, String>)
    requires
        pending_events(*old(reader)).len() > 0,
    ensures
        step_view(r) == pending_events(*old(reader))[0],
        pending_events(*final(reader)) == pending_events(*old(reader)).drop_first(),
{
    let mut buf = Vec::new();
    let event = match reader.read_event_into(&mut buf) { Ok(event) => event, Err(e) => return Err(e.to_string()) };
    let name_len = match &event { Start(t) | Empty(t) => t.name().as_ref().len(), _ => event.len() };
    let kind = match &event {
        Start(_) => XmlKind::Start, End(_) => XmlKind::End, Empty(_) => XmlKind::Empty,
        Text(_) => XmlKind::Text, CData(_) => XmlKind::CData, Comment(_) => XmlKind::Comment,
        Decl(_) => XmlKind::Decl, PI(_) => XmlKind::PI, DocType(_) => XmlKind::DocType, Eof => XmlKind::Eof,
    };
    Ok(XmlEvent { kind, content: event.to_vec(), name_len })
}

/// The view of attribute pairs.
pub open spec fn pairs_view(v: Seq<(Vec<u8>, Vec<u8>)>) -> Seq<(Seq<u8>, Seq<u8>)> {
    v.map_values(|p: (Vec<u8>, Vec<u8>)| (p.0@, p.1@))
}

/// Calls `quick_xml::events::attributes::Attributes::new` on a tag's content
/// (the attributes start after the name) and keeps every well-formed
/// attribute as its key and raw value. Content that is not UTF-8 (which a
/// tag of a UTF-8 document never is) gives no attributes. Claimed: the
/// result is `attributes_of` the content and name length.
#[verifier::external_body]
fn tag_attributes(content: &[u8], name_len: usize) -> (r: Vec<(Vec<u8>, Vec<u8>)>)
    requires
        name_len <= content@.len(),
    ensures
        pairs_view(r@) == attributes_of(content@, name_len as nat),
{
    match std::str::from_utf8(content) {
        Ok(text) => Attributes::new(text, name_len).flatten().map(|a| (a.key.as_ref().to_vec(), a.value.to_vec())).collect(),
        Err(_) => Vec::new(),
    }
}

/// Calls `String::from_utf8_lossy`. Claimed: the result is `lossy_utf8` of
/// the bytes, and valid UTF-8 decodes as itself.
#[verifier::external_body]
fn lossy_string(bytes: &[u8]) -> (s: String)
    ensures
        s@ == lossy_utf8(bytes@),
        valid_utf8(bytes@) ==> s@ == decode_utf8(bytes@),
{
    String::from_utf8_lossy(bytes).into_owned()
}

/// Calls `String::from_utf8`: the decoded string exactly when the bytes are
/// valid UTF-8.
#[verifier::external_body]
fn string_from_utf8(bytes: Vec<u8>) -> (r: Option<String>)
    ensures
        r is Some <==> valid_utf8(bytes@),
        r matches Some(s) ==> s@ == decode_utf8(bytes@),
{
    String::from_utf8(bytes).ok()
}

/// Unicode White_Space, the whitespace `str::trim` removes.
pub open spec fn is_unicode_whitespace(c: char) -> bool {
    ||| '\t' <= c <= '\r'
    ||| c == ' '
    ||| c == '\u{85}'
    ||| c == '\u{a0}'
    ||| c == '\u{1680}'
    ||| '\u{2000}' <= c <= '\u{200a}'
    ||| c == '\u{2028}'
    ||| c == '\u{2029}'
    ||| c == '\u{202f}'
    ||| c == '\u{205f}'
    ||| c == '\u{3000}'
}

/// Leading whitespace removed.
pub open spec fn trim_start_spec(s: Seq<char>) -> Seq<char>
    decreases s.len(),
{
    if s.len() > 0 && is_unicode_whitespace(s[0]) { trim_start_spec(s.drop_first()) } else { s }
}

/// Trailing whitespace removed.
pub open spec fn trim_end_spec(s: Seq<char>) -> Seq<char>
    decreases s.len(),
{
    if s.len() > 0 && is_unicode_whitespace(s.last()) { trim_end_spec(s.drop_last()) } else { s }
}

/// Leading and trailing whitespace removed.
pub open spec fn trim_spec(s: Seq<char>) -> Seq<char> {
    trim_end_spec(trim_start_spec(s))
}

/// Whether `c` is Unicode White_Space.
fn is_whitespace_char(c: char) -> (b: bool)
    ensures
        b == is_unicode_whitespace(c),
{
    ('\t' <= c && c <= '\r') || c == ' ' || c == '\u{85}' || c == '\u{a0}' || c == '\u{1680}'
        || ('\u{2000}' <= c && c <= '\u{200a}') || c == '\u{2028}' || c == '\u{2029}'
        || c == '\u{202f}' || c == '\u{205f}' || c == '\u{3000}'
}

/// Removing leading whitespace leaves the text from its first character
/// that is not whitespace.
proof fn lemma_trim_start_at(s: Seq<char>, a: int)
    requires
        0 <= a <= s.len(),
        forall|i: int| 0 <= i < a ==> is_unicode_whitespace(#[trigger] s[i]),
        a == s.len() || !is_unicode_whitespace(s[a]),
    ensures
        trim_start_spec(s) == s.subrange(a, s.len() as int),
    decreases a,
{
    if a == 0 {
        assert(s.subrange(0, s.len() as int) =~= s);
    } else {
        let t = s.drop_first();
        assert(is_unicode_whitespace(s[0]));
        assert forall|i: int| 0 <= i < a - 1 implies is_unicode_whitespace(#[trigger] t[i]) by {
            assert(t[i] == s[i + 1]);
        }
        lemma_trim_start_at(t, a - 1);
        assert(t.subrange(a - 1, t.len() as int) =~= s.subrange(a, s.len() as int));
    }
}

/// Removing trailing whitespace leaves the text up to its last character
/// that is not whitespace.
proof fn lemma_trim_end_at(s: Seq<char>, b: int)
    requires
        0 <= b <= s.len(),
        forall|i: int| b <= i < s.len() ==> is_unicode_whitespace(#[trigger] s[i]),
        b == 0 || !is_unicode_whitespace(s[b - 1]),
    ensures
        trim_end_spec(s) == s.subrange(0, b),
    decreases s.len() - b,
{
    if b == s.len() {
        assert(s.subrange(0, b) =~= s);
    } else {
        let t = s.drop_last();
        assert(is_unicode_whitespace(s[s.len() - 1]));
        assert forall|i: int| b <= i < t.len() implies is_unicode_whitespace(#[trigger] t[i]) by {
            assert(t[i] == s[i]);
        }
        lemma_trim_end_at(t, b);
        assert(t.subrange(0, b) =~= s.subrange(0, b));
    }
}

/// A copy of the text with leading and trailing Unicode whitespace removed,
/// as `str::trim` gives it.
fn trimmed(s: &str) -> (r: String)
    ensures
        r@ == trim_spec(s@),
{
    let n = s.unicode_len();
    let mut a: usize = 0;
    while a < n
        invariant
            n == s@.len(),
            a <= n,
            forall|i: int| 0 <= i < a ==> is_unicode_whitespace(#[trigger] s@[i]),
        ensures
            a <= n,
            forall|i: int| 0 <= i < a ==> is_unicode_whitespace(#[trigger] s@[i]),
            a == n || !is_unicode_whitespace(s@[a as int]),
        decreases n - a,
    {
        if !is_whitespace_char(s.get_char(a)) {
            break;
        }
        a = a + 1;
    }
    let mut b: usize = n;
    while b > a
        invariant
            n == s@.len(),
            a <= b <= n,
            forall|i: int| b <= i < n ==> is_unicode_whitespace(#[trigger] s@[i]),
        ensures
            a <= b <= n,
            forall|i: int| b <= i < n ==> is_unicode_whitespace(#[trigger] s@[i]),
            b == a || !is_unicode_whitespace(s@[b - 1]),
        decreases b - a,
    {
        if !is_whitespace_char(s.get_char(b - 1)) {
            break;
        }
        b = b - 1;
    }
    proof {
        lemma_trim_start_at(s@, a as int);
        let t = s@.subrange(a as int, n as int);
        assert forall|i: int| b - a <= i < t.len() implies is_unicode_whitespace(#[trigger] t[i]) by {
            assert(t[i] == s@[i + a]);
        }
        if b > a {
            assert(t[b - a - 1] == s@[b - 1]);
        }
        lemma_trim_end_at(t, b - a);
        assert(t.subrange(0, b - a) =~= s@.subrange(a as int, b as int));
    }
    s.substring_char(a, b).to_owned()
}

/// The bytes of `language`.
pub open spec fn language_bytes() -> Seq<u8> {
    seq![108, 97, 110, 103, 117, 97, 103, 101]
}

/// The bytes of `language`, to compare against.
fn language_literal() -> (v: Vec<u8>)
    ensures
        v@ == language_bytes(),
{
    vec![108, 97, 110, 103, 117, 97, 103, 101]
}

/// The bytes of `string`.
pub open spec fn string_bytes() -> Seq<u8> {
    seq![115, 116, 114, 105, 110, 103]
}

/// The bytes of `string`, to compare against.
fn string_literal() -> (v: Vec<u8>)
    ensures
        v@ == string_bytes(),
{
    vec![115, 116, 114, 105, 110, 103]
}

/// The bytes of `value`.
pub open spec fn value_bytes() -> Seq<u8> {
    seq![118, 97, 108, 117, 101]
}

/// The bytes of `value`, to compare against.
fn value_literal() -> (v: Vec<u8>)
    ensures
        v@ == value_bytes(),
{
    vec![118, 97, 108, 117, 101]
}

/// The bytes of `key`.
pub open spec fn key_bytes() -> Seq<u8> {
    seq![107, 101, 121]
}

/// The bytes of `key`, to compare against.
fn key_literal() -> (v: Vec<u8>)
    ensures
        v@ == key_bytes(),
{
    vec![107, 101, 121]
}

/// The bytes of `deprecated`.
pub open spec fn deprecated_bytes() -> Seq<u8> {
    seq![100, 101, 112, 114, 101, 99, 97, 116, 101, 100]
}

/// The bytes of `deprecated`, to compare against.
fn deprecated_literal() -> (v: Vec<u8>)
    ensures
        v@ == deprecated_bytes(),
{
    vec![100, 101, 112, 114, 101, 99, 97, 116, 101, 100]
}

/// The bytes of `name`.
pub open spec fn name_bytes() -> Seq<u8> {
    seq![110, 97, 109, 101]
}

/// The bytes of `name`, to compare against.
fn name_literal() -> (v: Vec<u8>)
    ensures
        v@ == name_bytes(),
{
    vec![110, 97, 109, 101]
}

/// The bytes of `base`.
pub open spec fn base_bytes() -> Seq<u8> {
    seq![98, 97, 115, 101]
}

/// The bytes of `base`, to compare against.
fn base_literal() -> (v: Vec<u8>)
    ensures
        v@ == base_bytes(),
{
    vec![98, 97, 115, 101]
}

/// The bytes of `variant`.
pub open spec fn variant_bytes() -> Seq<u8> {
    seq![118, 97, 114, 105, 97, 110, 116]
}

/// The bytes of `variant`, to compare against.
fn variant_literal() -> (v: Vec<u8>)
    ensures
        v@ == variant_bytes(),
{
    vec![118, 97, 114, 105, 97, 110, 116]
}

/// The bytes of `code`.
pub open spec fn code_bytes() -> Seq<u8> {
    seq![99, 111, 100, 101]
}

/// The bytes of `code`, to compare against.
fn code_literal() -> (v: Vec<u8>)
    ensures
        v@ == code_bytes(),
{
    vec![99, 111, 100, 101]
}

/// The bytes of `isDefault`.
pub open spec fn is_default_bytes() -> Seq<u8> {
    seq![105, 115, 68, 101, 102, 97, 117, 108, 116]
}

/// The bytes of `isDefault`, to compare against.
fn is_default_literal() -> (v: Vec<u8>)
    ensures
        v@ == is_default_bytes(),
{
    vec![105, 115, 68, 101, 102, 97, 117, 108, 116]
}

/// Whether two byte strings are equal.
fn bytes_equal(a: &[u8], b: &[u8]) -> (r: bool)
    ensures
        r == (a@ == b@),
{
    if a.len() != b.len() {
        return false;
    }
    let mut i: usize = 0;
    while i < a.len()
        invariant
            a@.len() == b@.len(),
            0 <= i <= a@.len(),
            forall|j: int| 0 <= j < i ==> a@[j] == b@[j],
        decreases a@.len() - i,
    {
        if a[i] != b[i] {
            return false;
        }
        i = i + 1;
    }
    assert(a@ =~= b@);
    true
}

/// Appends `src` to `out`.
fn append_bytes(out: &mut Vec<u8>, src: &[u8])
    ensures
        final(out)@ == old(out)@ + src@,
{
    let mut i: usize = 0;
    while i < src.len()
        invariant
            0 <= i <= src@.len(),
            out@ == old(out)@ + src@.take(i as int),
        decreases src@.len() - i,
    {
        out.push(src[i]);
        i = i + 1;
        assert(src@.take(i as int) =~= src@.take(i - 1).push(src@[i - 1]));
    }
    assert(src@.take(src@.len() as int) =~= src@);
}

/// The length of a tag's name, at most its content.
pub open spec fn tag_name_len(e: XmlEventModel) -> nat {
    if e.name_len <= e.content.len() { e.name_len } else { e.content.len() }
}

/// A tag's name: the first `name_len` bytes of its content.
pub open spec fn tag_name(e: XmlEventModel) -> Seq<u8> {
    e.content.take(tag_name_len(e) as int)
}

/// The event is a tag of the given kind and name.
pub open spec fn is_tag(e: XmlEventModel, kind: XmlKind, name: Seq<u8>) -> bool {
    e.kind == kind && tag_name(e) == name
}

/// Whether the event is a tag of the given kind and name.
fn tag_is(e: &XmlEvent, kind: XmlKind, name: &[u8]) -> (r: bool)
    ensures
        r == is_tag(e@, kind, name@),
{
    if e.kind != kind {
        return false;
    }
    let n = if e.name_len <= e.content.len() { e.name_len } else { e.content.len() };
    if n != name.len() {
        return false;
    }
    let mut i: usize = 0;
    while i < n
        invariant
            n == name@.len(),
            n <= e.content@.len(),
            n == tag_name_len(e@),
            0 <= i <= n,
            forall|j: int| 0 <= j < i ==> e.content@[j] == name@[j],
        decreases n - i,
    {
        if e.content[i] != name[i] {
            assert(tag_name(e@)[i as int] != name@[i as int]);
            return false;
        }
        i = i + 1;
    }
    assert(tag_name(e@) =~= name@);
    true
}

/// The bytes a writer puts out for an event (`quick_xml::Writer` without
/// indentation): the content between the event's delimiters.
pub open spec fn written(e: XmlEventModel) -> Seq<u8> {
    let c = e.content;
    match e.kind {
        XmlKind::Start => seq![60u8] + c + seq![62u8],
        XmlKind::End => seq![60u8, 47] + c + seq![62u8],
        XmlKind::Empty => seq![60u8] + c + seq![47u8, 62],
        XmlKind::Text => c,
        XmlKind::Comment => seq![60u8, 33, 45, 45] + c + seq![45u8, 45, 62],
        XmlKind::CData => seq![60u8, 33, 91, 67, 68, 65, 84, 65, 91] + c + seq![93u8, 93, 62],
        XmlKind::Decl | XmlKind::PI => seq![60u8, 63] + c + seq![63u8, 62],
        XmlKind::DocType => seq![60u8, 33, 68, 79, 67, 84, 89, 80, 69, 32] + c + seq![62u8],
        XmlKind::Eof => Seq::empty(),
    }
}

/// Appends what a writer puts out for the event.
fn write_event(out: &mut Vec<u8>, e: &XmlEvent)
    ensures
        final(out)@ == old(out)@ + written(e@),
{
    let (open, close): (Vec<u8>, Vec<u8>) = match e.kind {
        XmlKind::Start => (vec![60u8], vec![62u8]),
        XmlKind::End => (vec![60u8, 47], vec![62u8]),
        XmlKind::Empty => (vec![60u8], vec![47u8, 62]),
        XmlKind::Text => (vec![], vec![]),
        XmlKind::Comment => (vec![60u8, 33, 45, 45], vec![45u8, 45, 62]),
        XmlKind::CData => (vec![60u8, 33, 91, 67, 68, 65, 84, 65, 91], vec![93u8, 93, 62]),
        XmlKind::Decl | XmlKind::PI => (vec![60u8, 63], vec![63u8, 62]),
        XmlKind::DocType => (vec![60u8, 33, 68, 79, 67, 84, 89, 80, 69, 32], vec![62u8]),
        XmlKind::Eof => return,
    };
    let ghost before = out@;
    append_bytes(out, open.as_slice());
    append_bytes(out, e.content.as_slice());
    append_bytes(out, close.as_slice());
    assert(out@ =~= before + written(e@));
}

/// The raw value of the first attribute with the given key.
pub open spec fn find_attr(attrs: Seq<(Seq<u8>, Seq<u8>)>, key: Seq<u8>) -> Option<Seq<u8>>
    decreases attrs.len(),
{
    if attrs.len() == 0 {
        None
    } else if attrs[0].0 == key {
        Some(attrs[0].1)
    } else {
        find_attr(attrs.drop_first(), key)
    }
}

/// A tag's attribute, decoded as `String::from_utf8_lossy` does.
pub open spec fn attr_spec(e: XmlEventModel, key: Seq<u8>) -> Option<Seq<char>> {
    match find_attr(attributes_of(e.content, tag_name_len(e)), key) {
        Some(v) => Some(lossy_utf8(v)),
        None => None,
    }
}

/// The view of an optional string.
pub open spec fn opt_view(o: Option<String>) -> Option<Seq<char>> {
    match o {
        Some(s) => Some(s@),
        None => None,
    }
}

/// The value of a tag's attribute `key`, if it has one.
fn attr_value(e: &XmlEvent, key: &[u8]) -> (r: Option<String>)
    ensures
        opt_view(r) == attr_spec(e@, key@),
{
    let n = if e.name_len <= e.content.len() { e.name_len } else { e.content.len() };
    let attrs = tag_attributes(e.content.as_slice(), n);
    let ghost all = pairs_view(attrs@);
    let mut i: usize = 0;
    assert(all.subrange(0, all.len() as int) =~= all);
    while i < attrs.len()
        invariant
            0 <= i <= attrs@.len(),
            all == pairs_view(attrs@),
            all == attributes_of(e.content@, tag_name_len(e@)),
            find_attr(all, key@) == find_attr(all.subrange(i as int, all.len() as int), key@),
        decreases attrs@.len() - i,
    {
        let ghost rest = all.subrange(i as int, all.len() as int);
        assert(rest.drop_first() =~= all.subrange(i + 1, all.len() as int));
        if bytes_equal(attrs[i].0.as_slice(), key) {
            return Some(lossy_string(attrs[i].1.as_slice()));
        }
        i = i + 1;
    }
    None
}

/// The characters of `true`.
pub open spec fn true_chars() -> Seq<char> {
    seq!['t', 'r', 'u', 'e']
}

/// Whether a string reads exactly `true`.
fn is_true_text(s: &String) -> (r: bool)
    ensures
        r == (s@ == true_chars()),
{
    let t = s.as_str();
    if t.unicode_len() != 4 {
        return false;
    }
    let r = t.get_char(0) == 't' && t.get_char(1) == 'r' && t.get_char(2) == 'u' && t.get_char(3) == 'e';
    if r {
        assert(s@ =~= true_chars());
    }
    r
}

/// A language file's metadata.
#[derive(Debug, Clone)]
pub struct LanguageMeta {
    pub name: String,
    pub base: String,
    pub variant: String,
    pub code: Option<String>,
    pub is_default: Option<bool>,
}

/// The model of a language file's metadata.
pub struct MetaModel {
    pub name: Seq<char>,
    pub base: Seq<char>,
    pub variant: Seq<char>,
    pub code: Option<Seq<char>>,
    pub is_default: Option<bool>,
}

impl View for LanguageMeta {
    type V = MetaModel;

    open spec fn view(&self) -> MetaModel {
        MetaModel {
            name: self.name@,
            base: self.base@,
            variant: self.variant@,
            code: opt_view(self.code),
            is_default: self.is_default,
        }
    }
}

impl LanguageMeta {
    /// Metadata with every field empty.
    pub fn new() -> (m: LanguageMeta)
        ensures
            m@ == empty_meta(),
    {
        LanguageMeta {
            name: String::new(),
            base: String::new(),
            variant: String::new(),
            code: None,
            is_default: None,
        }
    }
}

impl Default for LanguageMeta {
    fn default() -> (m: LanguageMeta)
        ensures
            m@ == empty_meta(),
    {
        LanguageMeta::new()
    }
}

/// Metadata with every field empty.
pub open spec fn empty_meta() -> MetaModel {
    MetaModel { name: Seq::empty(), base: Seq::empty(), variant: Seq::empty(), code: None, is_default: None }
}

/// A loaded language file: its metadata, each active key with its value
/// variants, and the keys left out — deprecated ones, and repeats of a key
/// already loaded (the first occurrence wins).
#[derive(Debug)]
pub struct LanguagePack {
    pub meta: LanguageMeta,
    strings: Entries,
    pub deprecated_keys: Vec<String>,
    pub duplicate_keys: Vec<String>,
}

/// The model of a loaded language file.
pub struct PackModel {
    pub meta: MetaModel,
    pub strings: Seq<(Seq<char>, Seq<Seq<char>>)>,
    pub deprecated_keys: Seq<Seq<char>>,
    pub duplicate_keys: Seq<Seq<char>>,
}

/// The views of a list of strings.
pub open spec fn strings_view(v: Seq<String>) -> Seq<Seq<char>> {
    v.map_values(|s: String| s@)
}

/// The views of the keyed value lists.
pub open spec fn entries_view(v: Seq<(String, Vec<String>)>) -> Seq<(Seq<char>, Seq<Seq<char>>)> {
    v.map_values(|e: (String, Vec<String>)| (e.0@, strings_view(e.1@)))
}

impl View for LanguagePack {
    type V = PackModel;

    closed spec fn view(&self) -> PackModel {
        PackModel {
            meta: self.meta@,
            strings: self.strings.model(),
            deprecated_keys: strings_view(self.deprecated_keys@),
            duplicate_keys: strings_view(self.duplicate_keys@),
        }
    }
}

/// The active keys of a language file, each with its value variants, in
/// the order they were loaded. No key occurs twice.
#[derive(Debug)]
struct Entries {
    items: Vec<(String, Vec<String>)>,
}

impl Entries {
    #[verifier::type_invariant]
    spec fn distinct_keys(self) -> bool {
        keys_distinct(entries_view(self.items@))
    }

    /// The entries as keys with their value variants.
    spec fn model(self) -> Seq<(Seq<char>, Seq<Seq<char>>)> {
        entries_view(self.items@)
    }

    /// No entries.
    fn new() -> (e: Entries)
        ensures
            e.model() == Seq::<(Seq<char>, Seq<Seq<char>>)>::empty(),
    {
        let e = Entries { items: Vec::new() };
        assert(e.model() =~= Seq::<(Seq<char>, Seq<Seq<char>>)>::empty());
        e
    }

    /// The entries, whose keys are distinct.
    fn items(&self) -> (r: &Vec<(String, Vec<String>)>)
        ensures
            entries_view(r@) == self.model(),
            keys_distinct(self.model()),
    {
        proof {
            use_type_invariant(self);
        }
        &self.items
    }

    /// Whether `key` has an entry.
    fn contains_key(&self, key: &String) -> (r: bool)
        ensures
            r == has_key(self.model(), key@),
    {
        let items = self.items();
        let ghost v = entries_view(items@);
        let mut i: usize = 0;
        while i < items.len()
            invariant
                v == entries_view(items@),
                v == self.model(),
                0 <= i <= items@.len(),
                forall|j: int| 0 <= j < i ==> (#[trigger] v[j]).0 != key@,
            decreases items@.len() - i,
        {
            if items[i].0 == *key {
                assert(v[i as int].0 == key@);
                return true;
            }
            i = i + 1;
        }
        false
    }

    /// Adds an entry for a key that has none yet.
    fn push_new(&mut self, key: String, values: Vec<String>)
        requires
            !has_key(old(self).model(), key@),
        ensures
            final(self).model() == old(self).model().push((key@, strings_view(values@))),
    {
        proof {
            use_type_invariant(&*self);
        }
        let ghost before = self.model();
        let ghost entry = (key@, strings_view(values@));
        let mut items: Vec<(String, Vec<String>)> = Vec::new();
        std::mem::swap(&mut items, &mut self.items);
        assert(entries_view(items@) == before);
        items.push((key, values));
        proof {
            let s = entries_view(items@);
            assert(s =~= before.push(entry));
            assert forall|i: int, j: int| 0 <= i < j < s.len() implies (#[trigger] s[i]).0 != (#[trigger] s[j]).0 by {
                if j == s.len() - 1 {
                    assert(before[i] == s[i]);
                } else {
                    assert(before[i] == s[i] && before[j] == s[j]);
                }
            }
        }
        self.items = items;
    }
}

/// Why a language file could not be loaded.
#[derive(Debug)]
pub enum LoadError {
    Io(String),
    Xml(String),
    MissingKey,
    UnexpectedEof,
    Utf8,
}

/// The model of a load error.
pub enum LoadErrorModel {
    Io(Seq<char>),
    Xml(Seq<char>),
    MissingKey,
    UnexpectedEof,
    Utf8,
}

impl View for LoadError {
    type V = LoadErrorModel;

    open spec fn view(&self) -> LoadErrorModel {
        match self {
            LoadError::Io(m) => LoadErrorModel::Io(m@),
            LoadError::Xml(m) => LoadErrorModel::Xml(m@),
            LoadError::MissingKey => LoadErrorModel::MissingKey,
            LoadError::UnexpectedEof => LoadErrorModel::UnexpectedEof,
            LoadError::Utf8 => LoadErrorModel::Utf8,
        }
    }
}

/// A one-line description of a load error.
pub open spec fn message_spec(e: LoadErrorModel) -> Seq<char> {
    match e {
        LoadErrorModel::Io(m) => m,
        LoadErrorModel::Xml(m) => m,
        LoadErrorModel::MissingKey => "<string> element missing key attribute"@,
        LoadErrorModel::UnexpectedEof => "unexpected end of file inside <string>"@,
        LoadErrorModel::Utf8 => "invalid utf-8 in value content"@,
    }
}

impl LoadError {
    /// A one-line description of the error.
    pub fn message(&self) -> (m: String)
        ensures
            m@ == message_spec(self@),
    {
        match self {
            LoadError::Io(m) => m.clone(),
            LoadError::Xml(m) => m.clone(),
            LoadError::MissingKey => "<string> element missing key attribute".to_string(),
            LoadError::UnexpectedEof => "unexpected end of file inside <string>".to_string(),
            LoadError::Utf8 => "invalid utf-8 in value content".to_string(),
        }
    }
}

/// Nothing loaded yet.
pub open spec fn empty_pack() -> PackModel {
    PackModel { meta: empty_meta(), strings: Seq::empty(), deprecated_keys: Seq::empty(), duplicate_keys: Seq::empty() }
}

/// An optional text, or the empty text.
pub open spec fn or_empty(o: Option<Seq<char>>) -> Seq<char> {
    match o {
        Some(s) => s,
        None => Seq::empty(),
    }
}

/// The metadata read from a `<language>` tag.
pub open spec fn meta_of(e: XmlEventModel) -> MetaModel {
    MetaModel {
        name: or_empty(attr_spec(e, name_bytes())),
        base: or_empty(attr_spec(e, base_bytes())),
        variant: or_empty(attr_spec(e, variant_bytes())),
        code: attr_spec(e, code_bytes()),
        is_default: match attr_spec(e, is_default_bytes()) {
            Some(v) => Some(v == true_chars()),
            None => None,
        },
    }
}

/// Law: a `<language>` tag's metadata: `name`, `base` and `variant` are its
/// attributes of those names (the empty text when absent), `code` its
/// `code` attribute if any, and `is_default` is `None` without an
/// `isDefault` attribute, otherwise whether that attribute reads exactly
/// `true` (`"false"` or any other text gives `Some(false)`).
pub proof fn law_language_tag_metadata(e: XmlEventModel)
    ensures
        meta_of(e).is_default == (match attr_spec(e, seq![105u8, 115, 68, 101, 102, 97, 117, 108, 116]) {
            Some(v) => Some(v == seq!['t', 'r', 'u', 'e']),
            None => None,
        }),
        attr_spec(e, seq![105u8, 115, 68, 101, 102, 97, 117, 108, 116]) matches Some(v)
            ==> (v != seq!['t', 'r', 'u', 'e'] ==> meta_of(e).is_default == Some(false)),
        meta_of(e).code == attr_spec(e, seq![99u8, 111, 100, 101]),
        attr_spec(e, seq![110u8, 97, 109, 101]) matches Some(v) ==> meta_of(e).name == v,
        attr_spec(e, seq![110u8, 97, 109, 101]) is None ==> meta_of(e).name == Seq::<char>::empty(),
        attr_spec(e, seq![98u8, 97, 115, 101]) matches Some(v) ==> meta_of(e).base == v,
        attr_spec(e, seq![98u8, 97, 115, 101]) is None ==> meta_of(e).base == Seq::<char>::empty(),
        attr_spec(e, seq![118u8, 97, 114, 105, 97, 110, 116]) matches Some(v) ==> meta_of(e).variant == v,
        attr_spec(e, seq![118u8, 97, 114, 105, 97, 110, 116]) is None ==> meta_of(e).variant == Seq::<char>::empty(),
{
    assert(is_default_bytes() =~= seq![105u8, 115, 68, 101, 102, 97, 117, 108, 116]);
    assert(code_bytes() =~= seq![99u8, 111, 100, 101]);
    assert(name_bytes() =~= seq![110u8, 97, 109, 101]);
    assert(base_bytes() =~= seq![98u8, 97, 115, 101]);
    assert(variant_bytes() =~= seq![118u8, 97, 114, 105, 97, 110, 116]);
    assert(true_chars() =~= seq!['t', 'r', 'u', 'e']);
}

/// Whether `key` is among the loaded keys.
pub open spec fn has_key(strings: Seq<(Seq<char>, Seq<Seq<char>>)>, key: Seq<char>) -> bool {
    exists|i: int| 0 <= i < strings.len() && (#[trigger] strings[i]).0 == key
}

/// Records one `<string>`: a deprecated key is set aside, a key already
/// loaded is recorded as a repeat, any other key is loaded with its values.
pub open spec fn record(pack: PackModel, key: Seq<char>, deprecated: bool, values: Seq<Seq<char>>) -> PackModel {
    if deprecated {
        PackModel { deprecated_keys: pack.deprecated_keys.push(key), ..pack }
    } else if has_key(pack.strings, key) {
        PackModel { duplicate_keys: pack.duplicate_keys.push(key), ..pack }
    } else {
        PackModel { strings: pack.strings.push((key, values)), ..pack }
    }
}

/// A value's rebuilt bytes, decoded and trimmed.
pub open spec fn value_text(bytes: Seq<u8>) -> Result<Seq<char>, LoadErrorModel> {
    if valid_utf8(bytes) {
        Ok(trim_spec(decode_utf8(bytes)))
    } else {
        Err(LoadErrorModel::Utf8)
    }
}

/// Rebuilds the inside of an element, from `pos` to its closing tag
/// `closing` at nesting depth zero: every event is written back as it was
/// read, except comments, which are dropped. Gives the bytes and the
/// position after the closing tag.
pub open spec fn raw_inner_spec(
    steps: Seq<Result<XmlEventModel, Seq<char>>>,
    pos: int,
    closing: Seq<u8>,
    depth: nat,
    acc: Seq<u8>,
) -> Result<(Seq<u8>, int), LoadErrorModel>
    decreases steps.len() - pos,
{
    if pos < 0 || pos >= steps.len() {
        Err(LoadErrorModel::UnexpectedEof)
    } else {
        match steps[pos] {
            Err(m) => Err(LoadErrorModel::Xml(m)),
            Ok(e) => if e.kind == XmlKind::Eof {
                Err(LoadErrorModel::UnexpectedEof)
            } else if e.kind == XmlKind::End && depth == 0 && tag_name(e) == closing {
                Ok((acc, pos + 1))
            } else if e.kind == XmlKind::Comment {
                raw_inner_spec(steps, pos + 1, closing, depth, acc)
            } else if e.kind == XmlKind::Start {
                raw_inner_spec(steps, pos + 1, closing, depth + 1, acc + written(e))
            } else if e.kind == XmlKind::End {
                raw_inner_spec(steps, pos + 1, closing, if depth > 0 { (depth - 1) as nat } else { 0 }, acc + written(e))
            } else {
                raw_inner_spec(steps, pos + 1, closing, depth, acc + written(e))
            },
        }
    }
}

/// A whole `<value>`: its rebuilt inner markup, decoded and trimmed, and the
/// position after it.
pub open spec fn raw_value_spec(
    steps: Seq<Result<XmlEventModel, Seq<char>>>,
    pos: int,
    closing: Seq<u8>,
) -> Result<(Seq<char>, int), LoadErrorModel> {
    match raw_inner_spec(steps, pos, closing, 0, Seq::empty()) {
        Err(x) => Err(x),
        Ok((bytes, p)) => match value_text(bytes) {
            Err(x) => Err(x),
            Ok(v) => Ok((v, p)),
        },
    }
}

/// Rebuilding an element moves past at least one event.
pub proof fn lemma_raw_inner_advances(
    steps: Seq<Result<XmlEventModel, Seq<char>>>,
    pos: int,
    closing: Seq<u8>,
    depth: nat,
    acc: Seq<u8>,
)
    ensures
        raw_inner_spec(steps, pos, closing, depth, acc) matches Ok((_, p)) ==> pos < p <= steps.len(),
    decreases steps.len() - pos,
{
    if 0 <= pos < steps.len() {
        if let Ok(e) = steps[pos] {
            lemma_raw_inner_advances(steps, pos + 1, closing, depth, acc);
            lemma_raw_inner_advances(steps, pos + 1, closing, depth + 1, acc + written(e));
            lemma_raw_inner_advances(steps, pos + 1, closing, if depth > 0 { (depth - 1) as nat } else { 0 }, acc + written(e));
            lemma_raw_inner_advances(steps, pos + 1, closing, depth, acc + written(e));
        }
    }
}

/// Reads the values inside a `<string>`, from `pos` to its `</string>`:
/// each `<value>` element gives its rebuilt content, an empty `<value/>`
/// gives the empty text, anything else is skipped.
pub open spec fn body_spec(
    steps: Seq<Result<XmlEventModel, Seq<char>>>,
    pos: int,
    values: Seq<Seq<char>>,
) -> Result<(Seq<Seq<char>>, int), LoadErrorModel>
    decreases steps.len() - pos,
{
    if pos < 0 || pos >= steps.len() {
        Err(LoadErrorModel::UnexpectedEof)
    } else {
        match steps[pos] {
            Err(m) => Err(LoadErrorModel::Xml(m)),
            Ok(e) => if e.kind == XmlKind::Eof {
                Err(LoadErrorModel::UnexpectedEof)
            } else if is_tag(e, XmlKind::End, string_bytes()) {
                Ok((values, pos + 1))
            } else if is_tag(e, XmlKind::Start, value_bytes()) {
                match raw_value_spec(steps, pos + 1, value_bytes()) {
                    Err(x) => Err(x),
                    Ok((v, p)) => {
                        proof {
                            lemma_raw_inner_advances(steps, pos + 1, value_bytes(), 0, Seq::empty());
                            assert(pos < p <= steps.len());
                        }
                        body_spec(steps, p, values.push(v))
                    },
                }
            } else if is_tag(e, XmlKind::Empty, value_bytes()) {
                body_spec(steps, pos + 1, values.push(Seq::empty()))
            } else {
                body_spec(steps, pos + 1, values)
            },
        }
    }
}

/// Reading a `<string>` body moves past at least one event.
pub proof fn lemma_body_advances(steps: Seq<Result<XmlEventModel, Seq<char>>>, pos: int, values: Seq<Seq<char>>)
    ensures
        body_spec(steps, pos, values) matches Ok((_, p)) ==> pos < p <= steps.len(),
    decreases steps.len() - pos,
{
    if 0 <= pos < steps.len() {
        if let Ok(e) = steps[pos] {
            if is_tag(e, XmlKind::Start, value_bytes()) {
                lemma_raw_inner_advances(steps, pos + 1, value_bytes(), 0, Seq::empty());
                if let Ok((v, p)) = raw_value_spec(steps, pos + 1, value_bytes()) {
                    assert(pos < p <= steps.len());
                    lemma_body_advances(steps, p, values.push(v));
                }
            } else {
                lemma_body_advances(steps, pos + 1, values.push(Seq::empty()));
                lemma_body_advances(steps, pos + 1, values);
            }
        }
    }
}

/// Interprets a document from `pos`: a `<language>` tag sets the metadata,
/// a `<string>` tag needs a `key` and is recorded with its values (set aside
/// when `deprecated="true"`), everything else is skipped; the end of the
/// events ends the document.
pub open spec fn doc_spec(steps: Seq<Result<XmlEventModel, Seq<char>>>, pos: int, pack: PackModel) -> Result<PackModel, LoadErrorModel>
    decreases steps.len() - pos,
{
    if pos < 0 || pos >= steps.len() {
        Ok(pack)
    } else {
        match steps[pos] {
            Err(m) => Err(LoadErrorModel::Xml(m)),
            Ok(e) => if e.kind == XmlKind::Eof {
                Ok(pack)
            } else if is_tag(e, XmlKind::Empty, language_bytes()) || is_tag(e, XmlKind::Start, language_bytes()) {
                doc_spec(steps, pos + 1, PackModel { meta: meta_of(e), ..pack })
            } else if is_tag(e, XmlKind::Start, string_bytes()) {
                match attr_spec(e, key_bytes()) {
                    None => Err(LoadErrorModel::MissingKey),
                    Some(key) => {
                        let deprecated = attr_spec(e, deprecated_bytes()) == Some(true_chars());
                        match body_spec(steps, pos + 1, Seq::empty()) {
                            Err(x) => Err(x),
                            Ok((values, p)) => {
                                proof {
                                    lemma_body_advances(steps, pos + 1, Seq::empty());
                                    assert(pos < p <= steps.len());
                                }
                                doc_spec(steps, p, record(pack, key, deprecated, values))
                            },
                        }
                    },
                }
            } else {
                doc_spec(steps, pos + 1, pack)
            },
        }
    }
}

/// What a document's events load as.
pub open spec fn parse_spec(steps: Seq<Result<XmlEventModel, Seq<char>>>) -> Result<PackModel, LoadErrorModel> {
    doc_spec(steps, 0, empty_pack())
}

/// No key is loaded twice.
pub open spec fn keys_distinct(strings: Seq<(Seq<char>, Seq<Seq<char>>)>) -> bool {
    forall|i: int, j: int| 0 <= i < j < strings.len() ==> (#[trigger] strings[i]).0 != (#[trigger] strings[j]).0
}

proof fn lemma_record_keeps_distinct(pack: PackModel, key: Seq<char>, deprecated: bool, values: Seq<Seq<char>>)
    requires
        keys_distinct(pack.strings),
    ensures
        keys_distinct(record(pack, key, deprecated, values).strings),
{
    if !deprecated && !has_key(pack.strings, key) {
        let s = pack.strings.push((key, values));
        assert forall|i: int, j: int| 0 <= i < j < s.len() implies (#[trigger] s[i]).0 != (#[trigger] s[j]).0 by {
            if j == s.len() - 1 {
                assert(pack.strings[i] == s[i]);
            } else {
                assert(pack.strings[i] == s[i] && pack.strings[j] == s[j]);
            }
        }
    }
}

proof fn lemma_doc_keeps_distinct(steps: Seq<Result<XmlEventModel, Seq<char>>>, pos: int, pack: PackModel)
    requires
        keys_distinct(pack.strings),
    ensures
        doc_spec(steps, pos, pack) matches Ok(r) ==> keys_distinct(r.strings),
    decreases steps.len() - pos,
{
    if 0 <= pos < steps.len() {
        if let Ok(e) = steps[pos] {
            if is_tag(e, XmlKind::Empty, language_bytes()) || is_tag(e, XmlKind::Start, language_bytes()) {
                lemma_doc_keeps_distinct(steps, pos + 1, PackModel { meta: meta_of(e), ..pack });
            } else if is_tag(e, XmlKind::Start, string_bytes()) {
                if let Some(key) = attr_spec(e, key_bytes()) {
                    let deprecated = attr_spec(e, deprecated_bytes()) == Some(true_chars());
                    lemma_body_advances(steps, pos + 1, Seq::empty());
                    if let Ok((values, p)) = body_spec(steps, pos + 1, Seq::empty()) {
                        lemma_record_keeps_distinct(pack, key, deprecated, values);
                        lemma_doc_keeps_distinct(steps, p, record(pack, key, deprecated, values));
                    }
                }
            } else {
                lemma_doc_keeps_distinct(steps, pos + 1, pack);
            }
        }
    }
}

/// Law: a loaded language file never holds the same key twice; a repeated
/// key is recorded among the duplicates instead.
pub proof fn law_loaded_keys_are_distinct(steps: Seq<Result<XmlEventModel, Seq<char>>>)
    ensures
        parse_spec(steps) matches Ok(p) ==> keys_distinct(p.strings),
{
    lemma_doc_keeps_distinct(steps, 0, empty_pack());
}

/// Law: a repeated key never replaces the values loaded first: recording a
/// `<string>` keeps every entry already loaded, in place.
pub proof fn law_first_occurrence_wins(pack: PackModel, key: Seq<char>, deprecated: bool, values: Seq<Seq<char>>)
    ensures
        record(pack, key, deprecated, values).strings.take(pack.strings.len() as int) == pack.strings,
        has_key(pack.strings, key) ==> record(pack, key, deprecated, values).strings == pack.strings,
{
    let r = record(pack, key, deprecated, values).strings;
    assert(r.take(pack.strings.len() as int) =~= pack.strings);
}

/// Law: with distinct keys, looking a key up finds the entry that holds it.
pub proof fn law_lookup_finds_the_entry(strings: Seq<(Seq<char>, Seq<Seq<char>>)>, i: int)
    requires
        keys_distinct(strings),
        0 <= i < strings.len(),
    ensures
        lookup(strings, strings[i].0) == Some(strings[i].1),
    decreases strings.len(),
{
    if i > 0 {
        let rest = strings.drop_first();
        assert(keys_distinct(rest)) by {
            assert forall|a: int, b: int| 0 <= a < b < rest.len() implies (#[trigger] rest[a]).0 != (#[trigger] rest[b]).0 by {
                assert(rest[a] == strings[a + 1] && rest[b] == strings[b + 1]);
            }
        }
        assert(strings[0].0 != strings[i].0);
        assert(rest[i - 1] == strings[i]);
        law_lookup_finds_the_entry(rest, i - 1);
    }
}

/// A key that looks up some values is the key of an entry holding them.
proof fn lemma_lookup_is_an_entry(strings: Seq<(Seq<char>, Seq<Seq<char>>)>, key: Seq<char>)
    ensures
        lookup(strings, key) matches Some(vs) ==> exists|i: int| 0 <= i < strings.len() && (#[trigger] strings[i]).0 == key && strings[i].1 == vs,
    decreases strings.len(),
{
    if strings.len() > 0 && strings[0].0 != key {
        let rest = strings.drop_first();
        lemma_lookup_is_an_entry(rest, key);
        if let Some(vs) = lookup(strings, key) {
            let i = choose|i: int| 0 <= i < rest.len() && (#[trigger] rest[i]).0 == key && rest[i].1 == vs;
            assert(strings[i + 1] == rest[i]);
        }
    }
}

/// Law: in a pack, whose keys are distinct, the values a key looks up are
/// held by exactly one entry, so flattening every entry in order
/// (`all_variants`) lists the values of each key exactly once.
pub proof fn law_key_values_are_one_entry(strings: Seq<(Seq<char>, Seq<Seq<char>>)>, key: Seq<char>)
    requires
        keys_distinct(strings),
    ensures
        lookup(strings, key) matches Some(vs) ==> exists|i: int| 0 <= i < strings.len()
            && (#[trigger] strings[i]).0 == key && strings[i].1 == vs
            && forall|j: int| 0 <= j < strings.len() && j != i ==> (#[trigger] strings[j]).0 != key,
{
    lemma_lookup_is_an_entry(strings, key);
    if let Some(vs) = lookup(strings, key) {
        let i = choose|i: int| 0 <= i < strings.len() && (#[trigger] strings[i]).0 == key && strings[i].1 == vs;
        assert forall|j: int| 0 <= j < strings.len() && j != i implies (#[trigger] strings[j]).0 != key by {
            if j < i {
                assert(strings[j].0 != strings[i].0);
            } else {
                assert(strings[i].0 != strings[j].0);
            }
        }
    }
}

/// A `<string>` element as the document reader reads it: its key, whether
/// it is marked `deprecated="true"`, and its values.
pub struct StringRecord {
    pub key: Seq<char>,
    pub deprecated: bool,
    pub values: Seq<Seq<char>>,
}

/// The `<string>` elements a document's events hold from `pos`, in document
/// order, as far as the document reader reads them.
pub open spec fn doc_records(steps: Seq<Result<XmlEventModel, Seq<char>>>, pos: int) -> Seq<StringRecord>
    decreases steps.len() - pos,
{
    if pos < 0 || pos >= steps.len() {
        Seq::empty()
    } else {
        match steps[pos] {
            Err(_) => Seq::empty(),
            Ok(e) => if e.kind == XmlKind::Eof {
                Seq::empty()
            } else if is_tag(e, XmlKind::Empty, language_bytes()) || is_tag(e, XmlKind::Start, language_bytes()) {
                doc_records(steps, pos + 1)
            } else if is_tag(e, XmlKind::Start, string_bytes()) {
                match attr_spec(e, key_bytes()) {
                    None => Seq::empty(),
                    Some(key) => {
                        let deprecated = attr_spec(e, deprecated_bytes()) == Some(true_chars());
                        match body_spec(steps, pos + 1, Seq::empty()) {
                            Err(_) => Seq::empty(),
                            Ok((values, p)) => {
                                proof {
                                    lemma_body_advances(steps, pos + 1, Seq::empty());
                                }
                                seq![StringRecord { key, deprecated, values }] + doc_records(steps, p)
                            },
                        }
                    },
                }
            } else {
                doc_records(steps, pos + 1)
            },
        }
    }
}

/// The keys of the deprecated elements, in order.
pub open spec fn deprecated_of(recs: Seq<StringRecord>) -> Seq<Seq<char>>
    decreases recs.len(),
{
    if recs.len() == 0 {
        Seq::empty()
    } else if recs.last().deprecated {
        deprecated_of(recs.drop_last()).push(recs.last().key)
    } else {
        deprecated_of(recs.drop_last())
    }
}

/// The values of the first element keyed `key` that is not deprecated.
pub open spec fn first_active_values(recs: Seq<StringRecord>, key: Seq<char>) -> Option<Seq<Seq<char>>>
    decreases recs.len(),
{
    if recs.len() == 0 {
        None
    } else {
        match first_active_values(recs.drop_last(), key) {
            Some(v) => Some(v),
            None => if !recs.last().deprecated && recs.last().key == key { Some(recs.last().values) } else { None },
        }
    }
}

/// The keys of the elements, not deprecated, that repeat the key of an
/// earlier element not deprecated, in order.
pub open spec fn repeated_keys(recs: Seq<StringRecord>) -> Seq<Seq<char>>
    decreases recs.len(),
{
    if recs.len() == 0 {
        Seq::empty()
    } else if !recs.last().deprecated && first_active_values(recs.drop_last(), recs.last().key) is Some {
        repeated_keys(recs.drop_last()).push(recs.last().key)
    } else {
        repeated_keys(recs.drop_last())
    }
}

/// The number of elements not deprecated.
pub open spec fn active_count(recs: Seq<StringRecord>) -> nat
    decreases recs.len(),
{
    if recs.len() == 0 {
        0
    } else {
        active_count(recs.drop_last()) + (if recs.last().deprecated { 0nat } else { 1nat })
    }
}

/// The lists a sequence of elements is recorded into, one after another.
pub open spec fn records_pack(recs: Seq<StringRecord>) -> PackModel
    decreases recs.len(),
{
    if recs.len() == 0 {
        empty_pack()
    } else {
        let r = recs.last();
        record(records_pack(recs.drop_last()), r.key, r.deprecated, r.values)
    }
}

/// Two packs hold the same keys and values and the same set-aside keys.
pub open spec fn same_lists(a: PackModel, b: PackModel) -> bool {
    &&& a.strings == b.strings
    &&& a.deprecated_keys == b.deprecated_keys
    &&& a.duplicate_keys == b.duplicate_keys
}

/// Looking up a key after one more entry.
proof fn lemma_lookup_push(strings: Seq<(Seq<char>, Seq<Seq<char>>)>, x: (Seq<char>, Seq<Seq<char>>), key: Seq<char>)
    ensures
        lookup(strings.push(x), key) == (match lookup(strings, key) {
            Some(v) => Some(v),
            None => if x.0 == key { Some(x.1) } else { None },
        }),
    decreases strings.len(),
{
    if strings.len() == 0 {
        assert(strings.push(x).drop_first() =~= Seq::<(Seq<char>, Seq<Seq<char>>)>::empty());
    } else {
        assert(strings.push(x).drop_first() =~= strings.drop_first().push(x));
        lemma_lookup_push(strings.drop_first(), x, key);
    }
}

/// A key is loaded exactly when looking it up finds values.
proof fn lemma_has_key_lookup(strings: Seq<(Seq<char>, Seq<Seq<char>>)>, key: Seq<char>)
    ensures
        has_key(strings, key) <==> lookup(strings, key) is Some,
    decreases strings.len(),
{
    lemma_lookup_is_an_entry(strings, key);
    if strings.len() > 0 && strings[0].0 != key {
        let rest = strings.drop_first();
        lemma_has_key_lookup(rest, key);
        if has_key(strings, key) {
            let i = choose|i: int| 0 <= i < strings.len() && (#[trigger] strings[i]).0 == key;
            assert(rest[i - 1] == strings[i]);
        }
        if has_key(rest, key) {
            let i = choose|i: int| 0 <= i < rest.len() && (#[trigger] rest[i]).0 == key;
            assert(strings[i + 1] == rest[i]);
        }
    } else if strings.len() > 0 {
        assert(strings[0].0 == key);
    }
}

/// What recording a sequence of elements gives, list by list.
proof fn lemma_records_pack(recs: Seq<StringRecord>)
    ensures
        records_pack(recs).deprecated_keys == deprecated_of(recs),
        records_pack(recs).duplicate_keys == repeated_keys(recs),
        forall|key: Seq<char>| #[trigger] lookup(records_pack(recs).strings, key) == first_active_values(recs, key),
        records_pack(recs).strings.len() + records_pack(recs).duplicate_keys.len() == active_count(recs),
    decreases recs.len(),
{
    if recs.len() > 0 {
        let init = recs.drop_last();
        let r = recs.last();
        let before = records_pack(init);
        lemma_records_pack(init);
        lemma_has_key_lookup(before.strings, r.key);
        assert(lookup(before.strings, r.key) == first_active_values(init, r.key));
        if !r.deprecated && !has_key(before.strings, r.key) {
            assert forall|key: Seq<char>| #[trigger] lookup(records_pack(recs).strings, key) == first_active_values(recs, key) by {
                lemma_lookup_push(before.strings, (r.key, r.values), key);
                assert(lookup(before.strings, key) == first_active_values(init, key));
            }
        } else {
            assert forall|key: Seq<char>| #[trigger] lookup(records_pack(recs).strings, key) == first_active_values(recs, key) by {
                assert(lookup(before.strings, key) == first_active_values(init, key));
            }
        }
    }
}

/// Reading a document from `pos` records its `<string>` elements after
/// those recorded so far.
proof fn lemma_doc_records(steps: Seq<Result<XmlEventModel, Seq<char>>>, pos: int, pack: PackModel, prefix: Seq<StringRecord>)
    requires
        same_lists(pack, records_pack(prefix)),
    ensures
        doc_spec(steps, pos, pack) matches Ok(r) ==> same_lists(r, records_pack(prefix + doc_records(steps, pos))),
    decreases steps.len() - pos,
{
    if pos < 0 || pos >= steps.len() {
        assert(prefix + doc_records(steps, pos) =~= prefix);
    } else if let Ok(e) = steps[pos] {
        if e.kind == XmlKind::Eof {
            assert(prefix + doc_records(steps, pos) =~= prefix);
        } else if is_tag(e, XmlKind::Empty, language_bytes()) || is_tag(e, XmlKind::Start, language_bytes()) {
            lemma_doc_records(steps, pos + 1, PackModel { meta: meta_of(e), ..pack }, prefix);
        } else if is_tag(e, XmlKind::Start, string_bytes()) {
            if let Some(key) = attr_spec(e, key_bytes()) {
                let deprecated = attr_spec(e, deprecated_bytes()) == Some(true_chars());
                lemma_body_advances(steps, pos + 1, Seq::empty());
                if let Ok((values, p)) = body_spec(steps, pos + 1, Seq::empty()) {
                    let rec = StringRecord { key, deprecated, values };
                    let longer = prefix.push(rec);
                    assert(longer.drop_last() =~= prefix);
                    lemma_doc_records(steps, p, record(pack, key, deprecated, values), longer);
                    assert(prefix + doc_records(steps, pos) =~= longer + doc_records(steps, p));
                }
            }
        } else {
            lemma_doc_records(steps, pos + 1, pack, prefix);
        }
    }
}

/// Law: a loaded document sets aside its deprecated `<string>` elements'
/// keys in document order; every other key loads the values of its first
/// element, and a key with no such element loads nothing; each later element
/// repeating an active key is recorded among the duplicates, in order; so
/// the active keys and the duplicates together count the elements that are
/// not deprecated.
pub proof fn law_document_bookkeeping(steps: Seq<Result<XmlEventModel, Seq<char>>>)
    ensures
        parse_spec(steps) matches Ok(p) ==> {
            let recs = doc_records(steps, 0);
            &&& p.deprecated_keys == deprecated_of(recs)
            &&& p.duplicate_keys == repeated_keys(recs)
            &&& forall|key: Seq<char>| #[trigger] lookup(p.strings, key) == first_active_values(recs, key)
            &&& p.strings.len() + p.duplicate_keys.len() == active_count(recs)
        },
{
    let empty = Seq::<StringRecord>::empty();
    assert(same_lists(empty_pack(), records_pack(empty)));
    lemma_doc_records(steps, 0, empty_pack(), empty);
    assert(empty + doc_records(steps, 0) =~= doc_records(steps, 0));
    lemma_records_pack(doc_records(steps, 0));
}

/// The view of a load result.
pub open spec fn pack_result_view(r: Result<LanguagePack, LoadError>) -> Result<PackModel, LoadErrorModel> {
    match r {
        Ok(p) => Ok(p@),
        Err(e) => Err(e@),
    }
}

/// Having just read an element's start tag (at `pos - 1`), rebuilds every
/// event up to the matching close tag back into markup, verbatim (nested
/// tags like `<b>...</b>` included), without relying on byte offsets into
/// the source. Comments are dropped. The result is decoded and trimmed.
fn read_raw_inner(steps: &[Result<XmlEvent, String>], pos: usize, closing: &[u8]) -> (r: Result<(String, usize), LoadError>)
    ensures
        match r {
            Ok((v, p)) => raw_value_spec(steps_view(steps@), pos as int, closing@) == Ok::<(Seq<char>, int), LoadErrorModel>((v@, p as int)),
            Err(x) => raw_value_spec(steps_view(steps@), pos as int, closing@) == Err::<(Seq<char>, int), LoadErrorModel>(x@),
        },
{
    let ghost s = steps_view(steps@);
    let mut depth: usize = 0;
    let mut out: Vec<u8> = Vec::new();
    let mut i = pos;
    loop
        invariant
            s == steps_view(steps@),
            pos <= i,
            depth <= i - pos,
            raw_inner_spec(s, pos as int, closing@, 0, Seq::empty()) == raw_inner_spec(s, i as int, closing@, depth as nat, out@),
        decreases steps@.len() - i,
    {
        if i >= steps.len() {
            return Err(LoadError::UnexpectedEof);
        }
        let ghost here = s[i as int];
        match &steps[i] {
            Err(m) => {
                return Err(LoadError::Xml(m.clone()));
            },
            Ok(e) => {
                assert(here == Ok::<XmlEventModel, Seq<char>>(e@));
                if e.kind == XmlKind::Eof {
                    return Err(LoadError::UnexpectedEof);
                } else if depth == 0 && tag_is(e, XmlKind::End, closing) {
                    let bytes = out;
                    let r = match string_from_utf8(bytes) {
                        Some(text) => Ok((trimmed(text.as_str()), i + 1)),
                        None => Err(LoadError::Utf8),
                    };
                    return r;
                } else if e.kind == XmlKind::Comment {
                } else if e.kind == XmlKind::Start {
                    depth = depth + 1;
                    write_event(&mut out, e);
                } else if e.kind == XmlKind::End {
                    depth = if depth > 0 { depth - 1 } else { 0 };
                    write_event(&mut out, e);
                } else {
                    write_event(&mut out, e);
                }
            },
        }
        i = i + 1;
    }
}

/// Reads everything inside a `<string>...</string>` element (from `pos`,
/// just after its start tag): the content of each `<value>` child; comments
/// and anything else that is not a `<value>` are skipped.
fn read_string_body(steps: &[Result<XmlEvent, String>], pos: usize) -> (r: Result<(Vec<String>, usize), LoadError>)
    ensures
        match r {
            Ok((v, p)) => body_spec(steps_view(steps@), pos as int, Seq::empty()) == Ok::<(Seq<Seq<char>>, int), LoadErrorModel>((strings_view(v@), p as int)),
            Err(x) => body_spec(steps_view(steps@), pos as int, Seq::empty()) == Err::<(Seq<Seq<char>>, int), LoadErrorModel>(x@),
        },
{
    let ghost s = steps_view(steps@);
    let mut values: Vec<String> = Vec::new();
    let mut i = pos;
    let value_tag = value_literal();
    let string_tag = string_literal();
    assert(strings_view(values@) =~= Seq::<Seq<char>>::empty());
    loop
        invariant
            s == steps_view(steps@),
            value_tag@ == value_bytes(),
            string_tag@ == string_bytes(),
            body_spec(s, pos as int, Seq::empty()) == body_spec(s, i as int, strings_view(values@)),
        decreases steps@.len() - i,
    {
        if i >= steps.len() {
            return Err(LoadError::UnexpectedEof);
        }
        let ghost here = s[i as int];
        match &steps[i] {
            Err(m) => {
                return Err(LoadError::Xml(m.clone()));
            },
            Ok(e) => {
                assert(here == Ok::<XmlEventModel, Seq<char>>(e@));
                if e.kind == XmlKind::Eof {
                    return Err(LoadError::UnexpectedEof);
                } else if tag_is(e, XmlKind::End, string_tag.as_slice()) {
                    return Ok((values, i + 1));
                } else if tag_is(e, XmlKind::Start, value_tag.as_slice()) {
                    proof {
                        lemma_raw_inner_advances(s, i + 1, value_bytes(), 0, Seq::empty());
                    }
                    match read_raw_inner(steps, i + 1, value_tag.as_slice()) {
                        Err(x) => {
                            return Err(x);
                        },
                        Ok((v, p)) => {
                            assert(i < p <= steps@.len());
                            proof {
                                assert(strings_view(values@.push(v)) =~= strings_view(values@).push(v@));
                            }
                            values.push(v);
                            i = p;
                        },
                    }
                } else if tag_is(e, XmlKind::Empty, value_tag.as_slice()) {
                    let v = String::new();
                    proof {
                        assert(strings_view(values@.push(v)) =~= strings_view(values@).push(Seq::empty()));
                    }
                    values.push(v);
                    i = i + 1;
                } else {
                    i = i + 1;
                }
            },
        }
    }
}

/// Interprets a document's reads (see `doc_spec`): the metadata, the active
/// keys with their values, and the deprecated and repeated keys; or the
/// first problem met, in document order.
pub fn parse_events(steps: &[Result<XmlEvent, String>]) -> (r: Result<LanguagePack, LoadError>)
    ensures
        pack_result_view(r) == parse_spec(steps_view(steps@)),
{
    let ghost s = steps_view(steps@);
    let mut pack = LanguagePack {
        meta: LanguageMeta::new(),
        strings: Entries::new(),
        deprecated_keys: Vec::new(),
        duplicate_keys: Vec::new(),
    };
    let language_tag = language_literal();
    let string_tag = string_literal();
    let key_name = key_literal();
    let deprecated_name = deprecated_literal();
    let mut i: usize = 0;
    assert(pack@.strings =~= Seq::<(Seq<char>, Seq<Seq<char>>)>::empty());
    assert(pack@.deprecated_keys =~= Seq::<Seq<char>>::empty());
    assert(pack@.duplicate_keys =~= Seq::<Seq<char>>::empty());
    assert(pack@ == empty_pack());
    loop
        invariant
            s == steps_view(steps@),
            language_tag@ == language_bytes(),
            string_tag@ == string_bytes(),
            key_name@ == key_bytes(),
            deprecated_name@ == deprecated_bytes(),
            parse_spec(s) == doc_spec(s, i as int, pack@),
        decreases steps@.len() - i,
    {
        if i >= steps.len() {
            return Ok(pack);
        }
        let ghost here = s[i as int];
        match &steps[i] {
            Err(m) => {
                return Err(LoadError::Xml(m.clone()));
            },
            Ok(e) => {
                assert(here == Ok::<XmlEventModel, Seq<char>>(e@));
                if e.kind == XmlKind::Eof {
                    return Ok(pack);
                } else if tag_is(e, XmlKind::Empty, language_tag.as_slice()) || tag_is(e, XmlKind::Start, language_tag.as_slice()) {
                    pack.meta = read_meta(e);
                    i = i + 1;
                } else if tag_is(e, XmlKind::Start, string_tag.as_slice()) {
                    let key = match attr_value(e, key_name.as_slice()) {
                        Some(k) => k,
                        None => {
                            return Err(LoadError::MissingKey);
                        },
                    };
                    let deprecated = match attr_value(e, deprecated_name.as_slice()) {
                        Some(v) => is_true_text(&v),
                        None => false,
                    };
                    proof {
                        lemma_body_advances(s, i + 1, Seq::empty());
                    }
                    let (values, p) = match read_string_body(steps, i + 1) {
                        Ok(r) => r,
                        Err(x) => {
                            return Err(x);
                        },
                    };
                    assert(i < p <= steps@.len());
                    let ghost before = pack@;
                    if deprecated {
                        pack.deprecated_keys.push(key);
                        proof {
                            assert(strings_view(pack.deprecated_keys@) =~= before.deprecated_keys.push(key@));
                        }
                    } else if pack.strings.contains_key(&key) {
                        pack.duplicate_keys.push(key);
                        proof {
                            assert(strings_view(pack.duplicate_keys@) =~= before.duplicate_keys.push(key@));
                        }
                    } else {
                        pack.strings.push_new(key, values);
                    }
                    assert(pack@ == record(before, key@, deprecated, strings_view(values@)));
                    i = p;
                } else {
                    i = i + 1;
                }
            },
        }
    }
}

/// Reads the metadata from a `<language>` tag; missing texts are empty.
fn read_meta(e: &XmlEvent) -> (m: LanguageMeta)
    ensures
        m@ == meta_of(e@),
{
    let name = match attr_value(e, name_literal().as_slice()) {
        Some(v) => v,
        None => String::new(),
    };
    let base = match attr_value(e, base_literal().as_slice()) {
        Some(v) => v,
        None => String::new(),
    };
    let variant = match attr_value(e, variant_literal().as_slice()) {
        Some(v) => v,
        None => String::new(),
    };
    let code = attr_value(e, code_literal().as_slice());
    let is_default = match attr_value(e, is_default_literal().as_slice()) {
        Some(v) => Some(is_true_text(&v)),
        None => None,
    };
    LanguageMeta { name, base, variant, code, is_default }
}

/// Loads a language file's text: reads its events with `quick_xml` and
/// interprets them with `parse_events`.
pub fn parse(raw: &str) -> (r: Result<LanguagePack, LoadError>)
    ensures
        pack_result_view(r) == parse_spec(document_events(raw@)),
{
    let mut reader = new_reader(raw);
    let ghost all = pending_events(reader);
    let mut steps: Vec<Result<XmlEvent, String>> = Vec::new();
    loop
        invariant_except_break
            steps@.len() < all.len(),
        invariant
            all == document_events(raw@),
            all.len() > 0,
            is_terminal(all.last()),
            forall|i: int| 0 <= i < all.len() - 1 ==> !is_terminal(#[trigger] all[i]),
            steps_view(steps@) + pending_events(reader) == all,
        ensures
            steps_view(steps@) == all,
        decreases all.len() - steps@.len(),
    {
        let ghost before = steps_view(steps@);
        let ghost pending = pending_events(reader);
        assert(all[before.len() as int] == pending[0]);
        let step = next_event(&mut reader);
        let terminal = match &step {
            Ok(e) => e.kind == XmlKind::Eof,
            Err(_) => true,
        };
        steps.push(step);
        proof {
            assert(steps_view(steps@) =~= before.push(step_view(step)));
        }
        assert(step_view(step) == all[before.len() as int]);
        assert(steps_view(steps@) + pending_events(reader) =~= all);
        if terminal {
            assert(is_terminal(all[before.len() as int]));
            assert(before.len() == all.len() - 1);
            assert(steps_view(steps@) =~= all);
            break;
        }
    }
    parse_events(steps.as_slice())
}

/// The characters of `.xml`.
pub open spec fn xml_suffix() -> Seq<char> {
    seq!['.', 'x', 'm', 'l']
}

/// The name a language file is known by: a file name whose extension is
/// `xml` (the part after its last dot, a leading dot not counting) is known
/// by its stem, the part before that dot; any other file is no language
/// file.
pub open spec fn language_name_spec(file_name: Seq<char>) -> Option<Seq<char>> {
    let n = file_name.len();
    if n > 4 && file_name.subrange(n - 4, n as int) == xml_suffix() {
        Some(file_name.subrange(0, n - 4))
    } else {
        None
    }
}

/// The name a directory entry is loaded under, if it is a language file
/// (see `language_name_spec`).
pub fn language_name(file_name: &str) -> (r: Option<String>)
    ensures
        opt_view(r) == language_name_spec(file_name@),
{
    let n = file_name.unicode_len();
    if n <= 4 {
        return None;
    }
    let dot = file_name.get_char(n - 4);
    let x = file_name.get_char(n - 3);
    let m = file_name.get_char(n - 2);
    let l = file_name.get_char(n - 1);
    if dot == '.' && x == 'x' && m == 'm' && l == 'l' {
        assert(file_name@.subrange(n - 4, n as int) =~= xml_suffix());
        Some(file_name.substring_char(0, n - 4).to_owned())
    } else {
        assert(file_name@.subrange(n - 4, n as int)[0] == dot);
        assert(file_name@.subrange(n - 4, n as int)[1] == x);
        assert(file_name@.subrange(n - 4, n as int)[2] == m);
        assert(file_name@.subrange(n - 4, n as int)[3] == l);
        None
    }
}

/// The value variants of the first entry with the given key.
pub open spec fn lookup(strings: Seq<(Seq<char>, Seq<Seq<char>>)>, key: Seq<char>) -> Option<Seq<Seq<char>>>
    decreases strings.len(),
{
    if strings.len() == 0 {
        None
    } else if strings[0].0 == key {
        Some(strings[0].1)
    } else {
        lookup(strings.drop_first(), key)
    }
}

/// Every value variant of every key, in order.
pub open spec fn all_variants(strings: Seq<(Seq<char>, Seq<Seq<char>>)>) -> Seq<Seq<char>>
    decreases strings.len(),
{
    if strings.len() == 0 {
        Seq::empty()
    } else {
        all_variants(strings.drop_last()) + strings.last().1
    }
}

impl LanguagePack {
    /// The position of the entry for `key`, if any.
    fn position_of(&self, key: &str) -> (r: Option<usize>)
        ensures
            match r {
                Some(i) => i < self@.strings.len() && lookup(self@.strings, key@) == Some(self@.strings[i as int].1),
                None => lookup(self@.strings, key@) is None,
            },
            keys_distinct(self@.strings),
    {
        let items = self.strings.items();
        let k = key.to_owned();
        let ghost v = self@.strings;
        let mut i: usize = 0;
        assert(v.subrange(0, v.len() as int) =~= v);
        while i < items.len()
            invariant
                v == self@.strings,
                v == entries_view(items@),
                keys_distinct(v),
                k@ == key@,
                0 <= i <= v.len(),
                lookup(v, key@) == lookup(v.subrange(i as int, v.len() as int), key@),
            decreases v.len() - i,
        {
            let ghost rest = v.subrange(i as int, v.len() as int);
            assert(rest.drop_first() =~= v.subrange(i + 1, v.len() as int));
            if items[i].0 == k {
                return Some(i);
            }
            i = i + 1;
        }
        None
    }

    /// All variants for a key, for random-variant selection at call sites.
    pub fn variants(&self, key: &str) -> (r: Option<&[String]>)
        ensures
            match r {
                Some(s) => lookup(self@.strings, key@) == Some(strings_view(s@)),
                None => lookup(self@.strings, key@) is None,
            },
            keys_distinct(self@.strings),
    {
        let items = self.strings.items();
        match self.position_of(key) {
            Some(i) => Some(items[i].1.as_slice()),
            None => None,
        }
    }

    /// First (or only) variant for a key; most keys have exactly one.
    pub fn get(&self, key: &str) -> (r: Option<&str>)
        ensures
            match r {
                Some(s) => lookup(self@.strings, key@) matches Some(vs) && vs.len() > 0 && s@ == vs[0],
                None => lookup(self@.strings, key@) matches None || lookup(self@.strings, key@) == Some(Seq::<Seq<char>>::empty()),
            },
            keys_distinct(self@.strings),
    {
        let items = self.strings.items();
        match self.position_of(key) {
            Some(i) => {
                let vs = &items[i].1;
                if vs.len() > 0 {
                    Some(vs[0].as_str())
                } else {
                    None
                }
            },
            None => None,
        }
    }

    /// All value variants across every key, flattened.
    pub fn variants_iter(&self) -> (r: Vec<&str>)
        ensures
            r@.map_values(|s: &str| s@) == all_variants(self@.strings),
            keys_distinct(self@.strings),
    {
        let items = self.strings.items();
        let ghost v = self@.strings;
        let mut out: Vec<&str> = Vec::new();
        let mut i: usize = 0;
        while i < items.len()
            invariant
                v == self@.strings,
                v == entries_view(items@),
                0 <= i <= v.len(),
                out@.map_values(|s: &str| s@) == all_variants(v.take(i as int)),
            decreases v.len() - i,
        {
            let vs = &items[i].1;
            let mut j: usize = 0;
            let ghost start = out@.map_values(|s: &str| s@);
            while j < vs.len()
                invariant
                    0 <= j <= vs@.len(),
                    vs@ == items@[i as int].1@,
                    out@.map_values(|s: &str| s@) == start + strings_view(vs@).take(j as int),
                decreases vs@.len() - j,
            {
                let ghost prev = out@;
                out.push(vs[j].as_str());
                proof {
                    assert(out@.map_values(|s: &str| s@) =~= prev.map_values(|s: &str| s@).push(vs@[j as int]@));
                    assert(strings_view(vs@).take(j + 1) =~= strings_view(vs@).take(j as int).push(vs@[j as int]@));
                }
                j = j + 1;
            }
            proof {
                assert(strings_view(vs@).take(vs@.len() as int) =~= strings_view(vs@));
                assert(v.take(i + 1).drop_last() =~= v.take(i as int));
                assert(v.take(i + 1).last() == v[i as int]);
            }
            i = i + 1;
        }
        assert(v.take(v.len() as int) =~= v);
        out
    }
}

} // verus!
