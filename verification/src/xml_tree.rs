//! A lightweight XML tree for request bodies: elements with their trimmed
//! text and children, lookups over it, and entity unescaping of text.

use vstd::prelude::*;
use quick_xml::events::Event;
use crate::fields::{trim, trim_chars};
use crate::seqs::{first_index, lemma_first_index_is};
use crate::text::{
    find_char, find_char_exec, own, parse_i32, parse_i64, push_all, push_str_chars, slice_chars,
    spec_parse_signed, str_chars, str_eq, string_from_chars,
};

verus! {

/// A lightweight XML tree node.
#[derive(Debug, Default)]
pub struct Node {
    /// Element name.
    pub name: String,
    /// Direct text content (trimmed).
    pub text: String,
    /// Child nodes in document order.
    pub children: Vec<Node>,
}

/// Selects the nodes with the given name.
pub open spec fn node_named(name: Seq<char>) -> spec_fn(Node) -> bool {
    |n: Node| n.name@ == name
}

/// The first of the nodes with the given name, if any.
pub open spec fn first_named(s: Seq<Node>, name: Seq<char>) -> Option<Node> {
    let i = first_index(s, node_named(name)) as int;
    if i < s.len() {
        Some(s[i])
    } else {
        None
    }
}

/// The text of the first child with the given name (empty when there is none).
pub open spec fn child_text_of(n: Node, name: Seq<char>) -> Seq<char> {
    match first_named(n.children@, name) {
        Some(c) => c.text@,
        None => Seq::<char>::empty(),
    }
}

/// The children named `item_name` of the first `Items` child of `n`.
pub open spec fn direct_items_of(n: Node, item_name: Seq<char>) -> Seq<Node> {
    match first_named(n.children@, "Items"@) {
        Some(items) => items.children@.filter(node_named(item_name)),
        None => Seq::<Node>::empty(),
    }
}

/// The items of `<wrapper><Items><item/>...</Items></wrapper>` under `n`.
pub open spec fn items_of(n: Node, wrapper: Seq<char>, item_name: Seq<char>) -> Seq<Node> {
    match first_named(n.children@, wrapper) {
        Some(w) => direct_items_of(w, item_name),
        None => Seq::<Node>::empty(),
    }
}

/// The texts of nodes.
pub open spec fn texts(s: Seq<Node>) -> Seq<Seq<char>> {
    s.map_values(|n: Node| n.text@)
}

/// The spellings of a true flag.
pub open spec fn true_word(s: Seq<char>) -> bool {
    s == "true"@ || s == "True"@ || s == "TRUE"@ || s == "1"@
}

fn texts_of(nodes: &Vec<&Node>) -> (r: Vec<String>)
    ensures
        r@.map_values(|s: String| s@) == nodes@.map_values(|n: &Node| n.text@),
{
    let mut out: Vec<String> = Vec::new();
    let mut i: usize = 0;
    while i < nodes.len()
        invariant
            i <= nodes.len(),
            out@.len() == i,
            forall|k: int| 0 <= k < i ==> (#[trigger] out@[k])@ == nodes@[k].text@,
        decreases nodes.len() - i,
    {
        out.push(nodes[i].text.clone());
        i = i + 1;
    }
    assert(out@.map_values(|s: String| s@) =~= nodes@.map_values(|n: &Node| n.text@));
    out
}

impl Node {
    /// Find the first direct child element with the given name.
    pub fn child(&self, name: &str) -> (r: Option<&Node>)
        ensures
            match r {
                Some(c) => first_named(self.children@, name@) == Some(*c),
                None => first_named(self.children@, name@) == None::<Node>,
            },
    {
        let ghost pred = node_named(name@);
        let mut i: usize = 0;
        while i < self.children.len()
            invariant
                i <= self.children.len(),
                pred == node_named(name@),
                forall|k: int| 0 <= k < i ==> !pred(#[trigger] self.children@[k]),
            decreases self.children.len() - i,
        {
            if str_eq(self.children[i].name.as_str(), name) {
                proof {
                    lemma_first_index_is(self.children@, pred, i as int);
                }
                return Some(&self.children[i]);
            }
            i = i + 1;
        }
        proof {
            lemma_first_index_is(self.children@, pred, i as int);
        }
        None
    }

    /// The children with the given name, in document order.
    pub fn children_named(&self, name: &str) -> (r: Vec<&Node>)
        ensures
            r@.map_values(|n: &Node| *n) == self.children@.filter(node_named(name@)),
    {
        let ghost pred = node_named(name@);
        let mut out: Vec<&Node> = Vec::new();
        let mut i: usize = 0;
        while i < self.children.len()
            invariant
                i <= self.children.len(),
                pred == node_named(name@),
                out@.map_values(|n: &Node| *n) == self.children@.take(i as int).filter(pred),
            decreases self.children.len() - i,
        {
            proof {
                reveal_with_fuel(Seq::filter, 1);
                assert(self.children@.take(i + 1).drop_last() =~= self.children@.take(i as int));
                assert(self.children@.take(i + 1).last() == self.children@[i as int]);
            }
            let ghost before = out@.map_values(|n: &Node| *n);
            if str_eq(self.children[i].name.as_str(), name) {
                out.push(&self.children[i]);
                assert(out@.map_values(|n: &Node| *n) =~= before.push(self.children@[i as int]));
            }
            i = i + 1;
        }
        assert(self.children@.take(self.children.len() as int) =~= self.children@);
        out
    }

    /// Text content of the named child, default empty.
    pub fn child_text(&self, name: &str) -> (r: &str)
        ensures
            r@ == child_text_of(*self, name@),
    {
        match self.child(name) {
            Some(c) => c.text.as_str(),
            None => {
                proof {
                    reveal_strlit("");
                }
                ""
            },
        }
    }

    /// Parse text of named child as integer (0 when absent or unparsable).
    pub fn child_i32(&self, name: &str) -> (r: i32)
        ensures
            r as int == match spec_parse_signed(
                child_text_of(*self, name@),
                i32::MIN as int,
                i32::MAX as int,
            ) {
                Some(v) => v,
                None => 0,
            },
    {
        match parse_i32(self.child_text(name)) {
            Some(v) => v,
            None => 0,
        }
    }

    /// Parse text of named child as i64 (0 when absent or unparsable).
    pub fn child_i64(&self, name: &str) -> (r: i64)
        ensures
            r as int == match spec_parse_signed(
                child_text_of(*self, name@),
                i64::MIN as int,
                i64::MAX as int,
            ) {
                Some(v) => v,
                None => 0,
            },
    {
        match parse_i64(self.child_text(name)) {
            Some(v) => v,
            None => 0,
        }
    }

    /// Parse text of named child as boolean: `true`, `True`, `TRUE` or `1`
    /// (after trimming) is true.
    pub fn child_bool(&self, name: &str) -> (r: bool)
        ensures
            r == true_word(trim(child_text_of(*self, name@))),
    {
        let t = str_chars(self.child_text(name));
        let trimmed = string_from_chars(&trim_chars(&t));
        let s = trimmed.as_str();
        str_eq(s, "true") || str_eq(s, "True") || str_eq(s, "TRUE") || str_eq(s, "1")
    }

    /// Parse a `<Items>...<Item/>...</Items>` list where `Items` is a *direct* child.
    pub fn direct_items(&self, item_name: &str) -> (r: Vec<&Node>)
        ensures
            r@.map_values(|n: &Node| *n) == direct_items_of(*self, item_name@),
    {
        proof {
            reveal_strlit("Items");
        }
        match self.child("Items") {
            Some(items) => items.children_named(item_name),
            None => {
                let v: Vec<&Node> = Vec::new();
                assert(v@.map_values(|n: &Node| *n) =~= Seq::<Node>::empty());
                v
            },
        }
    }

    /// Parse a `<Wrapper><Quantity/><Items>...</Items></Wrapper>` list shape.
    pub fn items_named(&self, wrapper: &str, item_name: &str) -> (r: Vec<&Node>)
        ensures
            r@.map_values(|n: &Node| *n) == items_of(*self, wrapper@, item_name@),
    {
        match self.child(wrapper) {
            Some(w) => w.direct_items(item_name),
            None => {
                let v: Vec<&Node> = Vec::new();
                assert(v@.map_values(|n: &Node| *n) =~= Seq::<Node>::empty());
                v
            },
        }
    }

    /// Parse a `<Wrapper><Items>...</Items></Wrapper>` list of string contents.
    pub fn string_items(&self, wrapper: &str, item_name: &str) -> (r: Vec<String>)
        ensures
            r@.map_values(|s: String| s@) == texts(items_of(*self, wrapper@, item_name@)),
    {
        let nodes = self.items_named(wrapper, item_name);
        let r = texts_of(&nodes);
        assert(r@.map_values(|s: String| s@) =~= texts(items_of(*self, wrapper@, item_name@))) by {
            let a = nodes@.map_values(|n: &Node| *n);
            assert forall|k: int| 0 <= k < nodes@.len() implies nodes@[k].text@ == a[k].text@ by {}
        }
        r
    }

    /// String variant of `direct_items`: returns the text of every matching item.
    pub fn direct_string_items(&self, item_name: &str) -> (r: Vec<String>)
        ensures
            r@.map_values(|s: String| s@) == texts(direct_items_of(*self, item_name@)),
    {
        let nodes = self.direct_items(item_name);
        let r = texts_of(&nodes);
        assert(r@.map_values(|s: String| s@) =~= texts(direct_items_of(*self, item_name@))) by {
            let a = nodes@.map_values(|n: &Node| *n);
            assert forall|k: int| 0 <= k < nodes@.len() implies nodes@[k].text@ == a[k].text@ by {}
        }
        r
    }
}

/// Parse a list of tag keys: `<TagKeys><Key>foo</Key></TagKeys>`.
pub fn parse_tag_keys(n: &Node) -> (r: Vec<String>)
    ensures
        r@.map_values(|s: String| s@) == texts(n.children@.filter(node_named("Key"@))),
{
    let nodes = n.children_named("Key");
    let r = texts_of(&nodes);
    assert(r@.map_values(|s: String| s@) =~= texts(n.children@.filter(node_named("Key"@)))) by {
        let a = nodes@.map_values(|x: &Node| *x);
        assert forall|k: int| 0 <= k < nodes@.len() implies nodes@[k].text@ == a[k].text@ by {}
    }
    r
}

// ---------------------------------------------------------------------------
// Entity unescaping
// ---------------------------------------------------------------------------

/// The value of a digit in radix 10 or 16.
pub open spec fn radix_digit(c: char, radix: u32) -> Option<nat> {
    if '0' <= c && c <= '9' {
        Some((c as nat - '0' as nat) as nat)
    } else if radix == 16 && 'a' <= c && c <= 'f' {
        Some((c as nat - 'a' as nat + 10) as nat)
    } else if radix == 16 && 'A' <= c && c <= 'F' {
        Some((c as nat - 'A' as nat + 10) as nat)
    } else {
        None
    }
}

/// All characters are digits of the radix.
pub open spec fn radix_digits(s: Seq<char>, radix: u32) -> bool {
    forall|i: int| 0 <= i < s.len() ==> (#[trigger] radix_digit(s[i], radix)).is_some()
}

/// The value of a string of digits of the radix.
pub open spec fn radix_value(s: Seq<char>, radix: u32) -> nat
    decreases s.len(),
{
    if s.len() == 0 {
        0
    } else {
        radix_value(s.drop_last(), radix) * (radix as nat) + radix_digit(s.last(), radix).unwrap()
    }
}

/// `u32::from_str_radix(s, radix)` for radix 10 or 16: an optional `+`, then
/// one or more digits, with a value that fits in a `u32`.
pub open spec fn parse_radix_u32(s: Seq<char>, radix: u32) -> Option<u32> {
    let body = if s.len() > 0 && s[0] == '+' {
        s.drop_first()
    } else {
        s
    };
    if body.len() > 0 && radix_digits(body, radix) && radix_value(body, radix) <= u32::MAX {
        Some(radix_value(body, radix) as u32)
    } else {
        None
    }
}

/// Whether `n` is a Unicode scalar value (a valid `char`).
pub open spec fn is_scalar(n: u32) -> bool {
    n <= 0xD7FF || (0xE000 <= n && n <= 0x10FFFF)
}

/// The character with the given code point, if it is one.
///
/// Trusted: `char::from_u32`, which gives `Some` exactly for Unicode scalar
/// values (at most `0x10FFFF` and not a surrogate).
#[verifier::external_body]
fn char_from_u32(n: u32) -> (r: Option<char>)
    ensures
        match r {
            Some(c) => is_scalar(n) && c == (n as char),
            None => !is_scalar(n),
        },
{
    char::from_u32(n)
}

/// An entity left as written.
pub open spec fn raw_entity(entity: Seq<char>) -> Seq<char> {
    "&"@ + entity + ";"@
}

/// The text an entity (the part between `&` and `;`) stands for: the five
/// named entities, a decimal `#N` or hexadecimal `#xN` character reference to
/// a valid character, or else the entity as written.
pub open spec fn entity_text(entity: Seq<char>) -> Seq<char> {
    if entity == "amp"@ {
        "&"@
    } else if entity == "lt"@ {
        "<"@
    } else if entity == "gt"@ {
        ">"@
    } else if entity == "quot"@ {
        "\""@
    } else if entity == "apos"@ {
        "'"@
    } else if entity.len() > 0 && entity[0] == '#' {
        let hexadecimal = entity.len() >= 2 && (entity[1] == 'x' || entity[1] == 'X');
        let radix: u32 = if hexadecimal {
            16
        } else {
            10
        };
        let num = if hexadecimal {
            entity.skip(2)
        } else {
            entity.skip(1)
        };
        match parse_radix_u32(num, radix) {
            Some(n) => if is_scalar(n) {
                seq![n as char]
            } else {
                raw_entity(entity)
            },
            None => raw_entity(entity),
        }
    } else {
        raw_entity(entity)
    }
}

/// XML text with its entities replaced (an `&` without a later `;` is kept
/// with the rest of the text).
pub open spec fn unescaped(s: Seq<char>) -> Seq<char>
    decreases s.len(),
{
    let i = find_char(s, '&') as int;
    if i >= s.len() {
        s
    } else {
        let rem = s.skip(i);
        let j = find_char(rem, ';') as int;
        if j >= rem.len() {
            s
        } else {
            s.take(i) + entity_text(rem.subrange(1, j)) + unescaped(rem.skip(j + 1))
        }
    }
}

fn radix_digit_exec(c: char, radix: u32) -> (r: Option<u32>)
    requires
        radix == 10 || radix == 16,
    ensures
        match r {
            Some(d) => radix_digit(c, radix) == Some(d as nat) && d < radix,
            None => radix_digit(c, radix).is_none(),
        },
{
    if '0' <= c && c <= '9' {
        Some(c as u32 - '0' as u32)
    } else if radix == 16 && 'a' <= c && c <= 'f' {
        Some(c as u32 - 'a' as u32 + 10)
    } else if radix == 16 && 'A' <= c && c <= 'F' {
        Some(c as u32 - 'A' as u32 + 10)
    } else {
        None
    }
}

proof fn lemma_radix_value_prefix(s: Seq<char>, i: int, radix: u32)
    requires
        0 <= i < s.len(),
    ensures
        radix_value(s.take(i + 1), radix) == radix_value(s.take(i), radix) * radix + radix_digit(
            s[i],
            radix,
        ).unwrap(),
{
    assert(s.take(i + 1).drop_last() =~= s.take(i));
}

proof fn lemma_radix_value_monotone(s: Seq<char>, i: int, radix: u32)
    requires
        0 <= i <= s.len(),
        radix >= 1,
    ensures
        radix_value(s.take(i), radix) <= radix_value(s, radix),
    decreases s.len() - i,
{
    if i < s.len() {
        lemma_radix_value_prefix(s, i, radix);
        lemma_radix_value_monotone(s, i + 1, radix);
        let v = radix_value(s.take(i), radix);
        assert(v <= v * radix) by (nonlinear_arith)
            requires
                radix >= 1,
        ;
    } else {
        assert(s.take(i) =~= s);
    }
}

/// Accumulates the digits of `body[start..]` in the radix, failing on a
/// non-digit or a value beyond `u32::MAX`.
fn accumulate_radix(body: &Vec<char>, start: usize, radix: u32) -> (r: Option<u32>)
    requires
        start <= body.len(),
        radix == 10 || radix == 16,
    ensures
        ({
            let b = body@.skip(start as int);
            match r {
                Some(v) => radix_digits(b, radix) && radix_value(b, radix) <= u32::MAX && v
                    == radix_value(b, radix),
                None => !(radix_digits(b, radix) && radix_value(b, radix) <= u32::MAX),
            }
        }),
{
    let ghost b = body@.skip(start as int);
    let mut acc: u32 = 0;
    let mut i: usize = start;
    while i < body.len()
        invariant
            start <= i <= body.len(),
            radix == 10 || radix == 16,
            b == body@.skip(start as int),
            radix_digits(b.take(i - start), radix),
            acc == radix_value(b.take(i - start), radix),
        decreases body.len() - i,
    {
        let ghost j: int = i - start;
        assert(b[j] == body@[i as int]);
        let d = match radix_digit_exec(body[i], radix) {
            Some(d) => d,
            None => {
                assert(radix_digit(b[j], radix).is_none());
                return None;
            },
        };
        proof {
            lemma_radix_value_prefix(b, j, radix);
        }
        let limit: u32 = (u32::MAX - d) / radix;
        if acc > limit {
            proof {
                assert(acc * radix + d > u32::MAX) by (nonlinear_arith)
                    requires
                        acc > limit,
                        limit == (u32::MAX - d) / (radix as int),
                        radix > 0,
                        d < radix,
                ;
                lemma_radix_value_monotone(b, j + 1, radix);
            }
            return None;
        }
        assert(acc * radix + d <= u32::MAX) by (nonlinear_arith)
            requires
                acc <= limit,
                limit == (u32::MAX - d) / (radix as int),
                radix > 0,
                d < radix,
        ;
        acc = acc * radix + d;
        assert forall|k: int| 0 <= k < j + 1 implies (#[trigger] radix_digit(
            b.take(j + 1)[k],
            radix,
        )).is_some() by {
            if k < j {
                assert(b.take(j + 1)[k] == b.take(j)[k]);
            }
        }
        i = i + 1;
    }
    assert(b.take(i - start) =~= b);
    Some(acc)
}

/// `u32::from_str_radix` for radix 10 or 16.
pub fn parse_radix_u32_exec(s: &Vec<char>, radix: u32) -> (r: Option<u32>)
    requires
        radix == 10 || radix == 16,
    ensures
        r == parse_radix_u32(s@, radix),
{
    let start: usize = if s.len() > 0 && s[0] == '+' {
        1
    } else {
        0
    };
    assert(s@.skip(0) =~= s@);
    assert(s@.skip(1) =~= s@.drop_first());
    if start == s.len() {
        return None;
    }
    accumulate_radix(s, start, radix)
}

fn entity_replacement(entity: &Vec<char>) -> (r: Vec<char>)
    ensures
        r@ == entity_text(entity@),
{
    let e = string_from_chars(entity);
    let es = e.as_str();
    let mut out: Vec<char> = Vec::new();
    if str_eq(es, "amp") {
        push_str_chars(&mut out, "&");
    } else if str_eq(es, "lt") {
        push_str_chars(&mut out, "<");
    } else if str_eq(es, "gt") {
        push_str_chars(&mut out, ">");
    } else if str_eq(es, "quot") {
        push_str_chars(&mut out, "\"");
    } else if str_eq(es, "apos") {
        push_str_chars(&mut out, "'");
    } else if entity.len() > 0 && entity[0] == '#' {
        let hexadecimal = entity.len() >= 2 && (entity[1] == 'x' || entity[1] == 'X');
        let radix: u32 = if hexadecimal {
            16
        } else {
            10
        };
        let from: usize = if hexadecimal {
            2
        } else {
            1
        };
        let num = slice_chars(entity, from, entity.len());
        assert(num@ =~= entity@.skip(from as int));
        let code = match parse_radix_u32_exec(&num, radix) {
            Some(n) => char_from_u32(n),
            None => None,
        };
        match code {
            Some(c) => {
                out.push(c);
                assert(out@ =~= seq![c]);
            },
            None => {
                push_str_chars(&mut out, "&");
                push_all(&mut out, entity);
                push_str_chars(&mut out, ";");
            },
        }
    } else {
        push_str_chars(&mut out, "&");
        push_all(&mut out, entity);
        push_str_chars(&mut out, ";");
    }
    out
}

/// Minimal XML entity unescaping (the five core entities plus numeric
/// character references).
pub fn unescape_xml(s: &str) -> (r: String)
    ensures
        r@ == unescaped(s@),
{
    let cs = str_chars(s);
    let mut out: Vec<char> = Vec::new();
    let mut pos: usize = 0;
    assert(cs@.skip(0) =~= cs@);
    while pos < cs.len()
        invariant
            pos <= cs.len(),
            out@ + unescaped(cs@.skip(pos as int)) == unescaped(cs@),
        decreases cs.len() - pos,
    {
        let rest = slice_chars(&cs, pos, cs.len());
        assert(rest@ =~= cs@.skip(pos as int));
        let i = find_char_exec(&rest, '&');
        if i >= rest.len() {
            let ghost before = out@;
            push_all(&mut out, &rest);
            assert(cs@.skip(cs.len() as int) =~= Seq::<char>::empty());
            assert(out@ + unescaped(cs@.skip(cs.len() as int)) =~= before + rest@);
            pos = cs.len();
        } else {
            let rem = slice_chars(&rest, i, rest.len());
            assert(rem@ =~= rest@.skip(i as int));
            let j = find_char_exec(&rem, ';');
            if j >= rem.len() {
                let ghost before = out@;
                push_all(&mut out, &rest);
                assert(cs@.skip(cs.len() as int) =~= Seq::<char>::empty());
                assert(out@ + unescaped(cs@.skip(cs.len() as int)) =~= before + rest@);
                pos = cs.len();
            } else {
                let ghost before = out@;
                let head = slice_chars(&rest, 0, i);
                assert(head@ =~= rest@.take(i as int));
                let entity = slice_chars(&rem, 1, j);
                let replacement = entity_replacement(&entity);
                push_all(&mut out, &head);
                push_all(&mut out, &replacement);
                let next = pos + i + j + 1;
                assert(rem@.skip(j + 1) =~= cs@.skip(next as int));
                assert(out@ + unescaped(cs@.skip(next as int)) =~= before + (rest@.take(i as int)
                    + entity_text(rem@.subrange(1, j as int)) + unescaped(rem@.skip(j + 1))));
                pos = next;
            }
        }
    }
    assert(out@ + Seq::<char>::empty() =~= out@);
    string_from_chars(&out)
}

// ---------------------------------------------------------------------------
// Parsing
// ---------------------------------------------------------------------------

/// An XML event, as the tree builder consumes it: element names, text and
/// character data as raw bytes.
#[derive(Debug)]
pub enum XmlEvent {
    /// An opening tag with the element's name.
    Start(Vec<u8>),
    /// A closing tag.
    End,
    /// A self-closing tag with the element's name.
    Empty(Vec<u8>),
    /// Escaped text.
    Text(Vec<u8>),
    /// A CDATA section.
    CData(Vec<u8>),
    /// Anything else (comments, declarations, processing instructions).
    Other,
    /// A syntax error, with its description.
    Failed(String),
}

/// The content of an XML event.
pub enum XmlEventView {
    Start(Seq<u8>),
    End,
    Empty(Seq<u8>),
    Text(Seq<u8>),
    CData(Seq<u8>),
    Other,
    Failed(Seq<char>),
}

impl View for XmlEvent {
    type V = XmlEventView;

    open spec fn view(&self) -> XmlEventView {
        match self {
            XmlEvent::Start(b) => XmlEventView::Start(b@),
            XmlEvent::End => XmlEventView::End,
            XmlEvent::Empty(b) => XmlEventView::Empty(b@),
            XmlEvent::Text(b) => XmlEventView::Text(b@),
            XmlEvent::CData(b) => XmlEventView::CData(b@),
            XmlEvent::Other => XmlEventView::Other,
            XmlEvent::Failed(m) => XmlEventView::Failed(m@),
        }
    }
}

/// The pull parser of the `quick-xml` crate.
#[verifier::external_type_specification]
#[verifier::external_body]
#[verifier::reject_recursive_types(R)]
pub struct ExXmlReader<R>(quick_xml::Reader<R>);

/// The events `quick-xml` gives for a document with the given settings, in
/// order, up to its end (errors among them; the tree builder stops at the
/// first one).
pub uninterp spec fn xml_events(xml: Seq<u8>, trim_text: bool, check_end_names: bool) -> Seq<
    XmlEventView,
>;

/// The events a reader has still to give before its end.
pub uninterp spec fn pending_events(reader: quick_xml::Reader<&[u8]>) -> Seq<XmlEventView>;

/// A reader over a document.
///
/// Trusted: `quick_xml::Reader::from_reader`, configured with `trim_text`
/// and `check_end_names`; it will give the document's events.
#[verifier::external_body]
fn open_reader(xml: &[u8], trim_text: bool, check_end_names: bool) -> (r: quick_xml::Reader<
    &[u8],
>)
    ensures
        pending_events(r) == xml_events(xml@, trim_text, check_end_names),
{
    let mut reader = quick_xml::Reader::from_reader(xml);
    reader.config_mut().trim_text(trim_text);
    reader.config_mut().check_end_names = check_end_names;
    reader
}

/// The reader's next event, or `None` at the end.
///
/// Trusted: `quick_xml::Reader::read_event`, which gives the document's
/// events in order and then `Eof`; after an ill-formed-document error it
/// goes on reading, after other errors it gives `Eof`.  The event kinds the
/// tree builder does not use are reported as `Other`.
#[verifier::external_body]
fn next_event(reader: &mut quick_xml::Reader<&[u8]>) -> (e: Option<XmlEvent>)
    ensures
        pending_events(*old(reader)).len() > 0 ==> (e matches Some(ev) && ev@ == pending_events(
            *old(reader),
        )[0] && pending_events(*final(reader)) == pending_events(*old(reader)).drop_first()),
        pending_events(*old(reader)).len() == 0 ==> (e is None && pending_events(*final(reader))
            == pending_events(*old(reader))),
{
    match reader.read_event() {
        Ok(Event::Start(e)) => Some(XmlEvent::Start(e.name().as_ref().to_vec())),
        Ok(Event::End(_)) => Some(XmlEvent::End),
        Ok(Event::Empty(e)) => Some(XmlEvent::Empty(e.name().as_ref().to_vec())),
        Ok(Event::Text(t)) => Some(XmlEvent::Text(t.to_vec())),
        Ok(Event::CData(c)) => Some(XmlEvent::CData(c.to_vec())),
        Ok(Event::Eof) => None,
        Ok(_) => Some(XmlEvent::Other),
        Err(e) => Some(XmlEvent::Failed(e.to_string())),
    }
}

/// The text of UTF-8 bytes, or the description of why they are not UTF-8.
pub uninterp spec fn utf8_decoded(b: Seq<u8>) -> Result<Seq<char>, Seq<char>>;

/// The text of UTF-8 bytes.
///
/// Trusted: `std::str::from_utf8`, which succeeds exactly on valid UTF-8
/// and then gives the text the bytes encode; on failure the result is the
/// error's `Display` text (named, not stated).
#[verifier::external_body]
fn decode_utf8(b: &[u8]) -> (r: Result<String, String>)
    ensures
        match r {
            Ok(s) => utf8_decoded(b@) == Ok::<Seq<char>, Seq<char>>(s@),
            Err(m) => utf8_decoded(b@) == Err::<Seq<char>, Seq<char>>(m@),
        },
        (r is Ok) == vstd::utf8::valid_utf8(b@),
        r matches Ok(s) ==> s@ == vstd::utf8::decode_utf8(b@),
{
    match std::str::from_utf8(b) {
        Ok(s) => Ok(s.to_owned()),
        Err(e) => Err(e.to_string()),
    }
}

/// The content of an XML tree.
pub struct NodeModel {
    pub name: Seq<char>,
    pub text: Seq<char>,
    pub children: Seq<NodeModel>,
}

/// `n` has the content `m`.
pub open spec fn models(n: Node, m: NodeModel) -> bool
    decreases n,
{
    &&& n.name@ == m.name
    &&& n.text@ == m.text
    &&& n.children@.len() == m.children.len()
    &&& forall|i: int|
        0 <= i < n.children@.len() ==> models(#[trigger] n.children@[i], m.children[i])
}

/// A fresh element with the given name.
pub open spec fn new_node(name: Seq<char>) -> NodeModel {
    NodeModel { name, text: Seq::<char>::empty(), children: Seq::<NodeModel>::empty() }
}

/// The tree builder's state: open elements, innermost last, and the last
/// finished top-level element.
pub struct BuildModel {
    pub stack: Seq<NodeModel>,
    pub root: Option<NodeModel>,
}

/// `node` added to the innermost open element, or made the root when none is open.
pub open spec fn attach(st: BuildModel, node: NodeModel) -> BuildModel {
    if st.stack.len() > 0 {
        let top = st.stack.last();
        BuildModel {
            stack: st.stack.drop_last().push(
                NodeModel { name: top.name, text: top.text, children: top.children.push(node) },
            ),
            root: st.root,
        }
    } else {
        BuildModel { stack: st.stack, root: Some(node) }
    }
}

/// Text appended to the innermost open element.
pub open spec fn append_text(st: BuildModel, t: Seq<char>) -> BuildModel {
    let top = st.stack.last();
    BuildModel {
        stack: st.stack.drop_last().push(
            NodeModel { name: top.name, text: top.text + t, children: top.children },
        ),
        root: st.root,
    }
}

/// The builder's state after one event, or the error it stops with.
pub open spec fn build_step(st: BuildModel, ev: XmlEventView) -> Result<BuildModel, Seq<char>> {
    match ev {
        XmlEventView::Start(b) => match utf8_decoded(b) {
            Ok(name) => Ok(BuildModel { stack: st.stack.push(new_node(name)), root: st.root }),
            Err(e) => Err("invalid utf8 in name: "@ + e),
        },
        XmlEventView::End => if st.stack.len() > 0 {
            Ok(attach(BuildModel { stack: st.stack.drop_last(), root: st.root }, st.stack.last()))
        } else {
            Ok(st)
        },
        XmlEventView::Empty(b) => match utf8_decoded(b) {
            Ok(name) => Ok(attach(st, new_node(name))),
            Err(e) => Err("invalid utf8 in name: "@ + e),
        },
        XmlEventView::Text(b) => if st.stack.len() > 0 {
            match utf8_decoded(b) {
                Ok(raw) => Ok(append_text(st, unescaped(raw))),
                Err(e) => Err("text utf8: "@ + e),
            }
        } else {
            Ok(st)
        },
        XmlEventView::CData(b) => if st.stack.len() > 0 {
            match utf8_decoded(b) {
                Ok(t) => Ok(append_text(st, t)),
                Err(e) => Err("cdata utf8: "@ + e),
            }
        } else {
            Ok(st)
        },
        XmlEventView::Other => Ok(st),
        XmlEventView::Failed(m) => Err("xml parse error: "@ + m),
    }
}

/// The builder's state after the events, or the first error.
pub open spec fn build_all(st: BuildModel, evs: Seq<XmlEventView>) -> Result<BuildModel, Seq<char>>
    decreases evs.len(),
{
    if evs.len() == 0 {
        Ok(st)
    } else {
        match build_step(st, evs[0]) {
            Ok(next) => build_all(next, evs.drop_first()),
            Err(e) => Err(e),
        }
    }
}

/// The tree of a document: an empty node for no input, else the last
/// top-level element built from the document's events (with text trimmed and
/// end names unchecked), or the first error.
pub open spec fn parse_result(xml: Seq<u8>) -> Result<NodeModel, Seq<char>> {
    if xml.len() == 0 {
        Ok(new_node(Seq::<char>::empty()))
    } else {
        match build_all(
            BuildModel { stack: Seq::<NodeModel>::empty(), root: None },
            xml_events(xml, true, false),
        ) {
            Ok(st) => match st.root {
                Some(r) => Ok(r),
                None => Err("empty XML document"@),
            },
            Err(e) => Err(e),
        }
    }
}

/// The exec builder state has the content `st`.
pub open spec fn state_models(stack: Seq<Node>, root: Option<Node>, st: BuildModel) -> bool {
    &&& stack.len() == st.stack.len()
    &&& forall|i: int| 0 <= i < stack.len() ==> models(#[trigger] stack[i], st.stack[i])
    &&& match (root, st.root) {
        (Some(n), Some(m)) => models(n, m),
        (None, None) => true,
        _ => false,
    }
}

fn empty_node(name: String) -> (r: Node)
    ensures
        models(r, new_node(name@)),
{
    let r = Node { name, text: String::new(), children: Vec::new() };
    assert(r.children@.len() == 0);
    r
}

/// Adds `node` to the innermost open element, or makes it the root.
fn attach_node(stack: &mut Vec<Node>, root: &mut Option<Node>, node: Node, Ghost(st): Ghost<BuildModel>, Ghost(m): Ghost<NodeModel>)
    requires
        state_models(old(stack)@, *old(root), st),
        models(node, m),
    ensures
        state_models(final(stack)@, *final(root), attach(st, m)),
{
    if stack.len() > 0 {
        let mut parent = stack.pop().unwrap();
        let ghost top = st.stack.last();
        assert(models(parent, top));
        let ghost before = parent.children@;
        parent.children.push(node);
        let ghost newtop = NodeModel { name: top.name, text: top.text, children: top.children.push(m) };
        assert forall|i: int| 0 <= i < parent.children@.len() implies models(
            #[trigger] parent.children@[i],
            newtop.children[i],
        ) by {
            if i < before.len() {
                assert(parent.children@[i] == before[i]);
            }
        }
        assert(models(parent, newtop));
        stack.push(parent);
        proof {
            let a = attach(st, m);
            assert forall|i: int| 0 <= i < stack@.len() implies models(
                #[trigger] stack@[i],
                a.stack[i],
            ) by {
                if i < stack@.len() - 1 {
                    assert(stack@[i] == old(stack)@[i]);
                }
            }
        }
    } else {
        *root = Some(node);
    }
}

/// Appends text to the innermost open element.
fn append_node_text(stack: &mut Vec<Node>, root: &Option<Node>, t: &Vec<char>, Ghost(st): Ghost<BuildModel>)
    requires
        state_models(old(stack)@, *root, st),
        old(stack)@.len() > 0,
    ensures
        state_models(final(stack)@, *root, append_text(st, t@)),
{
    let mut top = stack.pop().unwrap();
    let ghost m = st.stack.last();
    assert(models(top, m));
    let mut chars = str_chars(top.text.as_str());
    push_all(&mut chars, t);
    top.text = string_from_chars(&chars);
    let ghost newtop = NodeModel { name: m.name, text: m.text + t@, children: m.children };
    assert(models(top, newtop));
    stack.push(top);
    proof {
        let a = append_text(st, t@);
        assert forall|i: int| 0 <= i < stack@.len() implies models(#[trigger] stack@[i], a.stack[i]) by {
            if i < stack@.len() - 1 {
                assert(stack@[i] == old(stack)@[i]);
            }
        }
    }
}

fn with_prefix(prefix: &str, detail: &str) -> (r: String)
    ensures
        r@ == prefix@ + detail@,
{
    let mut m: Vec<char> = Vec::new();
    push_str_chars(&mut m, prefix);
    push_str_chars(&mut m, detail);
    string_from_chars(&m)
}

/// Parse an XML document into a tree rooted at its (last) top-level element.
///
/// Malformed XML, or names or text that are not UTF-8, give an error
/// message; a document without elements gives `empty XML document`.
pub fn parse(xml: &[u8]) -> (r: Result<Node, String>)
    ensures
        match r {
            Ok(n) => parse_result(xml@) matches Ok(m) && models(n, m),
            Err(e) => parse_result(xml@) == Err::<NodeModel, Seq<char>>(e@),
        },
{
    if xml.len() == 0 {
        return Ok(empty_node(String::new()));
    }
    let mut reader = open_reader(xml, true, false);
    let ghost all = pending_events(reader);
    let mut stack: Vec<Node> = Vec::new();
    let mut root: Option<Node> = None;
    let ghost mut st = BuildModel { stack: Seq::<NodeModel>::empty(), root: None };
    loop
        invariant
            xml@.len() > 0,
            state_models(stack@, root, st),
            build_all(BuildModel { stack: Seq::<NodeModel>::empty(), root: None }, all) == build_all(
                st,
                pending_events(reader),
            ),
            all == xml_events(xml@, true, false),
        ensures
            state_models(stack@, root, st),
            build_all(BuildModel { stack: Seq::<NodeModel>::empty(), root: None }, all) == Ok::<
                BuildModel,
                Seq<char>,
            >(st),
            all == xml_events(xml@, true, false),
        decreases pending_events(reader).len(),
    {
        let ghost pending = pending_events(reader);
        let ev = next_event(&mut reader);
        let event = match ev {
            None => {
                assert(pending.len() == 0);
                assert(build_all(st, pending) == Ok::<BuildModel, Seq<char>>(st));
                break;
            },
            Some(e) => e,
        };
        let ghost evv = pending[0];
        assert(event@ == evv);
        assert(build_all(st, pending) == match build_step(st, evv) {
            Ok(next) => build_all(next, pending.drop_first()),
            Err(e) => Err(e),
        });
        match event {
            XmlEvent::Start(b) => {
                assert(evv == XmlEventView::Start(b@));
                match decode_utf8(b.as_slice()) {
                    Ok(name) => {
                        let ghost nm = name@;
                        let node = empty_node(name);
                        stack.push(node);
                        proof {
                            let next = BuildModel { stack: st.stack.push(new_node(nm)), root: st.root };
                            assert forall|i: int| 0 <= i < stack@.len() implies models(
                                #[trigger] stack@[i],
                                next.stack[i],
                            ) by {
                                if i < stack@.len() - 1 {
                                    assert(stack@[i] == stack_entry(stack@, i));
                                }
                            }
                            st = next;
                        }
                    },
                    Err(e) => {
                        return Err(with_prefix("invalid utf8 in name: ", e.as_str()));
                    },
                }
            },
            XmlEvent::End => {
                if stack.len() > 0 {
                    let done = stack.pop().unwrap();
                    let ghost m = st.stack.last();
                    let ghost rest = BuildModel { stack: st.stack.drop_last(), root: st.root };
                    proof {
                        assert forall|i: int| 0 <= i < stack@.len() implies models(
                            #[trigger] stack@[i],
                            rest.stack[i],
                        ) by {}
                    }
                    attach_node(&mut stack, &mut root, done, Ghost(rest), Ghost(m));
                    proof {
                        st = attach(rest, m);
                    }
                }
            },
            XmlEvent::Empty(b) => {
                assert(evv == XmlEventView::Empty(b@));
                match decode_utf8(b.as_slice()) {
                    Ok(name) => {
                        let ghost nm = name@;
                        let node = empty_node(name);
                        attach_node(&mut stack, &mut root, node, Ghost(st), Ghost(new_node(nm)));
                        proof {
                            st = attach(st, new_node(nm));
                        }
                    },
                    Err(e) => {
                        return Err(with_prefix("invalid utf8 in name: ", e.as_str()));
                    },
                }
            },
            XmlEvent::Text(b) => {
                if stack.len() > 0 {
                    match decode_utf8(b.as_slice()) {
                        Ok(raw) => {
                            let text = unescape_xml(raw.as_str());
                            let tc = str_chars(text.as_str());
                            append_node_text(&mut stack, &root, &tc, Ghost(st));
                            proof {
                                st = append_text(st, tc@);
                            }
                        },
                        Err(e) => {
                            return Err(with_prefix("text utf8: ", e.as_str()));
                        },
                    }
                }
            },
            XmlEvent::CData(b) => {
                if stack.len() > 0 {
                    match decode_utf8(b.as_slice()) {
                        Ok(t) => {
                            let tc = str_chars(t.as_str());
                            append_node_text(&mut stack, &root, &tc, Ghost(st));
                            proof {
                                st = append_text(st, tc@);
                            }
                        },
                        Err(e) => {
                            return Err(with_prefix("cdata utf8: ", e.as_str()));
                        },
                    }
                }
            },
            XmlEvent::Other => {},
            XmlEvent::Failed(m) => {
                return Err(with_prefix("xml parse error: ", m.as_str()));
            },
        }
    }
    match root {
        Some(n) => Ok(n),
        None => Err(own("empty XML document")),
    }
}

/// The element at position `i` (used to name earlier stack entries in proofs).
spec fn stack_entry(s: Seq<Node>, i: int) -> Node {
    s[i]
}

} // verus!
