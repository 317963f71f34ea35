use vstd::prelude::*;

verus! {

/// A JSON number as the document carried it: a non-negative integer, a
/// negative integer, or a floating-point number (kept as its IEEE-754 bits).
#[derive(Debug, Clone, Copy, PartialEq, Eq, Structural)]
pub enum JsonNumber {
    PosInt(u64),
    NegInt(i64),
    Float(u64),
}

/// A parsed JSON document. Object members keep the order in which the
/// document lists them; keys are expected to be distinct.
#[derive(Debug)]
pub enum JsonValue {
    Null,
    Bool(bool),
    Number(JsonNumber),
    Str(String),
    Array(Vec<JsonValue>),
    Object(Vec<(String, JsonValue)>),
}

/// The first member of `entries` whose key is `key`.
pub open spec fn lookup(entries: Seq<(String, JsonValue)>, key: Seq<char>) -> Option<JsonValue>
    decreases entries.len(),
{
    if entries.len() == 0 {
        None
    } else if entries[0].0@ == key {
        Some(entries[0].1)
    } else {
        lookup(entries.drop_first(), key)
    }
}

impl JsonValue {
    /// The member `key` of an object; `None` for a missing key or a non-object.
    pub open spec fn spec_get(self, key: Seq<char>) -> Option<JsonValue> {
        match self {
            JsonValue::Object(entries) => lookup(entries@, key),
            _ => None,
        }
    }

    /// Indexing by key: the member, or `Null` when there is none.
    pub open spec fn at(self, key: Seq<char>) -> JsonValue {
        match self.spec_get(key) {
            Some(v) => v,
            None => JsonValue::Null,
        }
    }

    pub open spec fn spec_as_u64(self) -> Option<u64> {
        match self {
            JsonValue::Number(JsonNumber::PosInt(n)) => Some(n),
            _ => None,
        }
    }

    pub open spec fn spec_as_i64(self) -> Option<i64> {
        match self {
            JsonValue::Number(JsonNumber::PosInt(n)) => if n <= i64::MAX { Some(n as i64) } else { None },
            JsonValue::Number(JsonNumber::NegInt(n)) => Some(n),
            _ => None,
        }
    }

    pub open spec fn spec_as_str(self) -> Option<Seq<char>> {
        match self {
            JsonValue::Str(s) => Some(s@),
            _ => None,
        }
    }

    pub open spec fn spec_as_array(self) -> Option<Seq<JsonValue>> {
        match self {
            JsonValue::Array(items) => Some(items@),
            _ => None,
        }
    }

    pub fn get(&self, key: &str) -> (r: Option<&JsonValue>)
        ensures
            match r {
                Some(v) => self.spec_get(key@) == Some(*v),
                None => self.spec_get(key@).is_none(),
            },
    {
        match self {
            JsonValue::Object(entries) => {
                let k = key.to_owned();
                let mut i: usize = 0;
                assert(entries@.skip(0) =~= entries@);
                while i < entries.len()
                    invariant
                        0 <= i <= entries.len(),
                        k@ == key@,
                        self.spec_get(key@) == lookup(entries@, key@),
                        lookup(entries@, key@) == lookup(entries@.skip(i as int), key@),
                    decreases entries.len() - i,
                {
                    assert(entries@.skip(i as int).drop_first() =~= entries@.skip(i + 1));
                    if entries[i].0 == k {
                        assert(entries@.skip(i as int)[0] == entries@[i as int]);
                        assert(entries@[i as int].0@ == key@);
                        assert(lookup(entries@.skip(i as int), key@) == Some(entries@[i as int].1));
                        return Some(&entries[i].1);
                    }
                    i += 1;
                }
                None
            },
            _ => None,
        }
    }

    pub open spec fn spec_as_object(self) -> Option<Seq<(String, JsonValue)>> {
        match self {
            JsonValue::Object(entries) => Some(entries@),
            _ => None,
        }
    }

    pub fn as_object(&self) -> (r: Option<&Vec<(String, JsonValue)>>)
        ensures
            match r {
                Some(entries) => self.spec_as_object() == Some(entries@),
                None => self.spec_as_object() is None,
            },
    {
        match self {
            JsonValue::Object(entries) => Some(entries),
            _ => None,
        }
    }

    pub open spec fn spec_is_number(self) -> bool {
        self is Number
    }

    pub fn as_u64(&self) -> (r: Option<u64>)
        ensures r == self.spec_as_u64(),
    {
        match self {
            JsonValue::Number(JsonNumber::PosInt(n)) => Some(*n),
            _ => None,
        }
    }

    pub fn as_i64(&self) -> (r: Option<i64>)
        ensures r == self.spec_as_i64(),
    {
        match self {
            JsonValue::Number(JsonNumber::PosInt(n)) => if *n <= 9223372036854775807u64 { Some(*n as i64) } else { None },
            JsonValue::Number(JsonNumber::NegInt(n)) => Some(*n),
            _ => None,
        }
    }

    pub fn as_str(&self) -> (r: Option<&str>)
        ensures
            match r {
                Some(t) => self.spec_as_str() == Some(t@),
                None => self.spec_as_str() is None,
            },
    {
        match self {
            JsonValue::Str(t) => Some(t.as_str()),
            _ => None,
        }
    }

    pub fn as_array(&self) -> (r: Option<&Vec<JsonValue>>)
        ensures
            match r {
                Some(items) => self.spec_as_array() == Some(items@),
                None => self.spec_as_array() is None,
            },
    {
        match self {
            JsonValue::Array(items) => Some(items),
            _ => None,
        }
    }

    pub fn is_number(&self) -> (r: bool)
        ensures r == self.spec_is_number(),
    {
        match self {
            JsonValue::Number(_) => true,
            _ => false,
        }
    }

    /// `self[key]` read as an unsigned integer.
    pub fn field_u64(&self, key: &str) -> (r: Option<u64>)
        ensures r == self.at(key@).spec_as_u64(),
    {
        match self.get(key) {
            Some(v) => v.as_u64(),
            None => None,
        }
    }

    /// `self[key]` read as a signed integer.
    pub fn field_i64(&self, key: &str) -> (r: Option<i64>)
        ensures r == self.at(key@).spec_as_i64(),
    {
        match self.get(key) {
            Some(v) => v.as_i64(),
            None => None,
        }
    }

    /// `self[key]` read as a string.
    pub fn field_str(&self, key: &str) -> (r: Option<&str>)
        ensures
            match r {
                Some(t) => self.at(key@).spec_as_str() == Some(t@),
                None => self.at(key@).spec_as_str() is None,
            },
    {
        match self.get(key) {
            Some(v) => v.as_str(),
            None => None,
        }
    }

    /// `self[key]` read as an array.
    pub fn field_array(&self, key: &str) -> (r: Option<&Vec<JsonValue>>)
        ensures
            match r {
                Some(items) => self.at(key@).spec_as_array() == Some(items@),
                None => self.at(key@).spec_as_array() is None,
            },
    {
        match self.get(key) {
            Some(v) => v.as_array(),
            None => None,
        }
    }
}

/// A hexadecimal digit in lower case.
pub open spec fn hex_digit(d: u32) -> char {
    if d < 10 { ('0' as u32 + d) as char } else { ('a' as u32 + d - 10) as char }
}

/// A character of a string as JSON writes it between quotes: quotes,
/// backslashes and control characters are escaped.
pub open spec fn escaped_char(c: char) -> Seq<char> {
    if c == '"' {
        seq!['\\', '"']
    } else if c == '\\' {
        seq!['\\', '\\']
    } else if c == '\u{8}' {
        seq!['\\', 'b']
    } else if c == '\u{c}' {
        seq!['\\', 'f']
    } else if c == '\n' {
        seq!['\\', 'n']
    } else if c == '\r' {
        seq!['\\', 'r']
    } else if c == '\t' {
        seq!['\\', 't']
    } else if (c as u32) < 0x20 {
        seq!['\\', 'u', '0', '0', hex_digit((c as u32) / 16), hex_digit((c as u32) % 16)]
    } else {
        seq![c]
    }
}

pub open spec fn escaped(s: Seq<char>) -> Seq<char>
    decreases s.len(),
{
    if s.len() == 0 {
        Seq::empty()
    } else {
        escaped(s.drop_last()) + escaped_char(s.last())
    }
}

/// A JSON value written as compact JSON text; a floating-point number, which
/// this library does not format, is written `<float>`.
pub open spec fn json_text(v: JsonValue) -> Seq<char>
    decreases v,
{
    match v {
        JsonValue::Null => "null"@,
        JsonValue::Bool(b) => if b { "true"@ } else { "false"@ },
        JsonValue::Number(JsonNumber::PosInt(n)) => crate::text::nat_str(n as nat),
        JsonValue::Number(JsonNumber::NegInt(n)) => crate::text::int_str(n as int),
        JsonValue::Number(JsonNumber::Float(_)) => "<float>"@,
        JsonValue::Str(s) => seq!['"'] + escaped(s@) + seq!['"'],
        JsonValue::Array(items) => seq!['['] + items_text(items@) + seq![']'],
        JsonValue::Object(entries) => seq!['{'] + entries_text(entries@) + seq!['}'],
    }
}

/// Values written one after the other, separated by commas.
pub open spec fn items_text(items: Seq<JsonValue>) -> Seq<char>
    decreases items,
{
    if items.len() == 0 {
        Seq::empty()
    } else if items.len() == 1 {
        json_text(items[0])
    } else {
        items_text(items.subrange(0, items.len() - 1)) + seq![','] + json_text(items[items.len() - 1])
    }
}

/// Object members written `"key":value`, separated by commas.
pub open spec fn entries_text(entries: Seq<(String, JsonValue)>) -> Seq<char>
    decreases entries,
{
    if entries.len() == 0 {
        Seq::empty()
    } else {
        let last = entries[entries.len() - 1];
        let member = seq!['"'] + escaped(last.0@) + seq!['"', ':'] + json_text(last.1);
        if entries.len() == 1 {
            member
        } else {
            entries_text(entries.subrange(0, entries.len() - 1)) + seq![','] + member
        }
    }
}

fn hex_text(d: u32) -> (r: &'static str)
    requires
        d < 16,
    ensures
        r@ == seq![hex_digit(d)],
{
    proof {
        reveal_strlit("0"); reveal_strlit("1"); reveal_strlit("2"); reveal_strlit("3");
        reveal_strlit("4"); reveal_strlit("5"); reveal_strlit("6"); reveal_strlit("7");
        reveal_strlit("8"); reveal_strlit("9"); reveal_strlit("a"); reveal_strlit("b");
        reveal_strlit("c"); reveal_strlit("d"); reveal_strlit("e"); reveal_strlit("f");
    }
    match d {
        0 => "0", 1 => "1", 2 => "2", 3 => "3", 4 => "4", 5 => "5", 6 => "6", 7 => "7",
        8 => "8", 9 => "9", 10 => "a", 11 => "b", 12 => "c", 13 => "d", 14 => "e", _ => "f",
    }
}

fn append_escaped_char(out: &mut String, s: &str, i: usize)
    requires
        i < s@.len(),
    ensures
        final(out)@ == old(out)@ + escaped_char(s@[i as int]),
{
    proof {
        reveal_strlit("\\\"");
        reveal_strlit("\\\\");
        reveal_strlit("\\b");
        reveal_strlit("\\f");
        reveal_strlit("\\n");
        reveal_strlit("\\r");
        reveal_strlit("\\t");
        reveal_strlit("\\u00");
    }
    let n = s.unicode_len();
    let c = s.get_char(i);
    if c == '"' {
        out.append("\\\"");
    } else if c == '\\' {
        out.append("\\\\");
    } else if c == '\u{8}' {
        out.append("\\b");
    } else if c == '\u{c}' {
        out.append("\\f");
    } else if c == '\n' {
        out.append("\\n");
    } else if c == '\r' {
        out.append("\\r");
    } else if c == '\t' {
        out.append("\\t");
    } else if (c as u32) < 0x20 {
        out.append("\\u00");
        out.append(hex_text((c as u32) / 16));
        out.append(hex_text((c as u32) % 16));
    } else {
        out.append(s.substring_char(i, i + 1));
    }
    assert(final(out)@ =~= old(out)@ + escaped_char(s@[i as int]));
}

fn append_string_text(out: &mut String, s: &str)
    ensures
        final(out)@ == old(out)@ + seq!['"'] + escaped(s@) + seq!['"'],
{
    proof {
        reveal_strlit("\"");
    }
    out.append("\"");
    let ghost start = out@;
    let n = s.unicode_len();
    let mut i: usize = 0;
    while i < n
        invariant
            0 <= i <= n,
            n == s@.len(),
            out@ == start + escaped(s@.take(i as int)),
        decreases n - i,
    {
        append_escaped_char(out, s, i);
        assert(s@.take(i + 1).drop_last() =~= s@.take(i as int));
        assert(out@ =~= start + escaped(s@.take(i + 1)));
        i += 1;
    }
    assert(s@.take(n as int) =~= s@);
    out.append("\"");
    assert(out@ =~= old(out)@ + seq!['"'] + escaped(s@) + seq!['"']);
}

impl JsonValue {
    fn append_text(&self, out: &mut String)
        ensures
            final(out)@ == old(out)@ + json_text(*self),
        decreases self,
    {
        proof {
            reveal_strlit("null");
            reveal_strlit("true");
            reveal_strlit("false");
            reveal_strlit("<float>");
            reveal_strlit("[");
            reveal_strlit("]");
            reveal_strlit("{");
            reveal_strlit("}");
            reveal_strlit(",");
            reveal_strlit(":");
        }
        match self {
            JsonValue::Null => out.append("null"),
            JsonValue::Bool(b) => if *b { out.append("true") } else { out.append("false") },
            JsonValue::Number(JsonNumber::PosInt(n)) => out.append(crate::text::u64_to_string(*n).as_str()),
            JsonValue::Number(JsonNumber::NegInt(n)) => out.append(crate::text::i64_to_string(*n).as_str()),
            JsonValue::Number(JsonNumber::Float(_)) => out.append("<float>"),
            JsonValue::Str(s) => append_string_text(out, s.as_str()),
            JsonValue::Array(items) => {
                out.append("[");
                let ghost start = out@;
                let mut i: usize = 0;
                while i < items.len()
                    invariant
                        0 <= i <= items.len(),
                        *self == JsonValue::Array(*items),
                        out@ == start + items_text(items@.subrange(0, i as int)),
                    decreases items.len() - i,
                {
                    let ghost prefix = items@.subrange(0, i as int);
                    if i > 0 {
                        out.append(",");
                    }
                    proof {
                        reveal_strlit(",");
                        assert(","@ =~= seq![',']);
                        assert(decreases_to!(*self => (*self)->Array_0));
                        assert((*self)->Array_0 == *items);
                        assert(decreases_to!(*items => items@));
                        assert(decreases_to!(items@ => items@[i as int]));
                    }
                    let ghost mid = out@;
                    items[i].append_text(out);
                    proof {
                        let next = items@.subrange(0, i + 1);
                        assert(next.subrange(0, next.len() - 1) =~= prefix);
                        assert(next[next.len() - 1] == items@[i as int]);
                        if i == 0 {
                            assert(prefix =~= Seq::<JsonValue>::empty());
                            assert(items_text(next) == json_text(items@[0]));
                            assert(mid =~= start);
                        } else {
                            assert(items_text(next) == items_text(prefix) + seq![','] + json_text(items@[i as int]));
                            assert(mid =~= start + items_text(prefix) + seq![',']);
                        }
                    }
                    assert(out@ =~= start + items_text(items@.subrange(0, i + 1)));
                    i += 1;
                }
                assert(items@.subrange(0, items.len() as int) =~= items@);
                out.append("]");
            },
            JsonValue::Object(entries) => {
                out.append("{");
                let ghost start = out@;
                let mut i: usize = 0;
                while i < entries.len()
                    invariant
                        0 <= i <= entries.len(),
                        *self == JsonValue::Object(*entries),
                        out@ == start + entries_text(entries@.subrange(0, i as int)),
                    decreases entries.len() - i,
                {
                    let ghost prefix = entries@.subrange(0, i as int);
                    if i > 0 {
                        out.append(",");
                    }
                    proof {
                        reveal_strlit(",");
                        reveal_strlit(":");
                        assert(","@ =~= seq![',']);
                        assert(":"@ =~= seq![':']);
                    }
                    let ghost mid = out@;
                    append_string_text(out, entries[i].0.as_str());
                    out.append(":");
                    proof {
                        assert(decreases_to!(*self => (*self)->Object_0));
                        assert((*self)->Object_0 == *entries);
                        assert(decreases_to!(*entries => entries@));
                        assert(decreases_to!(entries@ => entries@[i as int]));
                        assert(decreases_to!(entries@[i as int] => entries@[i as int].1));
                    }
                    entries[i].1.append_text(out);
                    proof {
                        let next = entries@.subrange(0, i + 1);
                        let last = entries@[i as int];
                        let member = seq!['"'] + escaped(last.0@) + seq!['"', ':'] + json_text(last.1);
                        assert(next.subrange(0, next.len() - 1) =~= prefix);
                        assert(next[next.len() - 1] == last);
                        assert(out@ =~= mid + member);
                        if i == 0 {
                            assert(prefix =~= Seq::<(String, JsonValue)>::empty());
                            assert(entries_text(next) == member);
                            assert(mid =~= start);
                        } else {
                            assert(entries_text(next) == entries_text(prefix) + seq![','] + member);
                            assert(mid =~= start + entries_text(prefix) + seq![',']);
                        }
                    }
                    assert(out@ =~= start + entries_text(entries@.subrange(0, i + 1)));
                    i += 1;
                }
                assert(entries@.subrange(0, entries.len() as int) =~= entries@);
                out.append("}");
            },
        }
        assert(final(out)@ =~= old(out)@ + json_text(*self));
    }

    /// The value as compact JSON text, for messages; see `json_text`.
    pub fn describe(&self) -> (r: String)
        ensures
            r@ == json_text(*self),
    {
        let mut out = String::new();
        self.append_text(&mut out);
        assert(out@ =~= json_text(*self));
        out
    }

    /// `self[key]`, described for messages.
    pub fn describe_field(&self, key: &str) -> (r: String)
        ensures
            r@ == json_text(self.at(key@)),
    {
        match self.get(key) {
            Some(v) => v.describe(),
            None => {
                proof { reveal_strlit("null"); }
                String::from_str("null")
            },
        }
    }
}

} // verus!
