//! The `application/x-www-form-urlencoded` serialization that request
//! bodies use, stated over the UTF-8 bytes of names and values, and the
//! serializer of the `url` crate that produces it.
use vstd::prelude::*;
use vstd::utf8::{encode_utf8, is_ascii_chars};
use url::form_urlencoded::Serializer;

verus! {

/// Bytes that the form serializer copies unchanged: `*`, `-`, `.`,
/// ASCII digits, ASCII letters and `_`.
pub open spec fn form_byte_unchanged(b: u8) -> bool {
    b == 0x2a || b == 0x2d || b == 0x2e || (0x30 <= b <= 0x39) || (0x41 <= b <= 0x5a) || b
        == 0x5f || (0x61 <= b <= 0x7a)
}

/// The upper-case hexadecimal digit for `d < 16`.
pub open spec fn hex_upper(d: int) -> char {
    if d < 10 {
        ((d + 0x30) as u8) as char
    } else {
        ((d - 10 + 0x41) as u8) as char
    }
}

/// What the form serializer writes for one byte: the byte itself when it is
/// unchanged, `+` for a space, and `%XX` with upper-case hex digits otherwise.
pub open spec fn form_byte(b: u8) -> Seq<char> {
    if form_byte_unchanged(b) {
        seq![b as char]
    } else if b == 0x20 {
        seq!['+']
    } else {
        seq!['%', hex_upper(b as int / 16), hex_upper(b as int % 16)]
    }
}

/// The form serialization of a byte string, byte by byte.
pub open spec fn form_bytes(bytes: Seq<u8>) -> Seq<char>
    decreases bytes.len(),
{
    if bytes.len() == 0 {
        Seq::empty()
    } else {
        form_bytes(bytes.drop_last()) + form_byte(bytes.last())
    }
}

/// The form serialization of a text: that of its UTF-8 bytes.
pub open spec fn form_component(text: Seq<char>) -> Seq<char> {
    form_bytes(encode_utf8(text))
}

/// `name=value`, both serialized.
pub open spec fn form_pair(name: Seq<char>, value: Seq<char>) -> Seq<char> {
    form_component(name) + seq!['='] + form_component(value)
}

/// The serializer's text after one more pair: a `&` separates it from what
/// came before, when anything did.
pub open spec fn form_append(text: Seq<char>, name: Seq<char>, value: Seq<char>) -> Seq<char> {
    if text.len() > 0 {
        text + seq!['&'] + form_pair(name, value)
    } else {
        form_pair(name, value)
    }
}

/// The form serialization of a list of name/value pairs, in order.
pub open spec fn form_encode(pairs: Seq<(Seq<char>, Seq<char>)>) -> Seq<char>
    decreases pairs.len(),
{
    if pairs.len() == 0 {
        Seq::empty()
    } else {
        form_append(form_encode(pairs.drop_last()), pairs.last().0, pairs.last().1)
    }
}

/// A form serializer of the `url` crate writing into a `String`, held in a
/// private field; `form_text` names the text it has written so far.
#[verifier::external_body]
pub struct FormSerializer {
    inner: Serializer<'static, String>,
}

/// The text that a form serializer over a `String` holds so far.
pub uninterp spec fn form_text(serializer: FormSerializer) -> Seq<char>;

/// `form_urlencoded::Serializer::new(String::new())`: a serializer over an
/// empty string, which holds no text yet.
#[verifier::external_body]
pub(crate) fn form_serializer_new() -> (serializer: FormSerializer)
    ensures
        form_text(serializer) == Seq::<char>::empty(),
{
    FormSerializer { inner: Serializer::new(String::new()) }
}

/// `Serializer::append_pair`: with no encoding override, it appends `&` when
/// the text is not empty, then the serialized name, `=` and the serialized
/// value (UTF-8 bytes through `byte_serialize`).
#[verifier::external_body]
pub(crate) fn form_serializer_append(
    serializer: &mut FormSerializer,
    name: &str,
    value: &str,
)
    ensures
        form_text(*final(serializer)) == form_append(form_text(*old(serializer)), name@, value@),
{
    serializer.inner.append_pair(name, value);
}

/// `Serializer::finish`: hands back the target string, which holds the text
/// appended so far. Taking the serializer by value rules out the second
/// `finish`, on which the outside function panics.
#[verifier::external_body]
pub(crate) fn form_serializer_finish(serializer: FormSerializer) -> (text: String)
    ensures
        text@ == form_text(serializer),
{
    let mut inner = serializer.inner;
    inner.finish()
}

/// Serializes `pairs` in order with the `url` crate's form serializer.
pub fn encode_form(pairs: &Vec<(&str, &str)>) -> (text: String)
    ensures
        text@ == form_encode(pairs_view(pairs@)),
{
    let mut serializer = form_serializer_new();
    let mut i: usize = 0;
    while i < pairs.len()
        invariant
            i <= pairs.len(),
            form_text(serializer) == form_encode(pairs_view(pairs@.take(i as int))),
        decreases pairs.len() - i,
    {
        let (name, value) = pairs[i];
        form_serializer_append(&mut serializer, name, value);
        assert(pairs_view(pairs@.take(i + 1)).drop_last() =~= pairs_view(pairs@.take(i as int)));
        i = i + 1;
    }
    assert(pairs@.take(i as int) =~= pairs@);
    form_serializer_finish(serializer)
}

/// An ASCII character that is neither `&` nor `=`: what serialized names and
/// values are made of.
pub open spec fn form_safe_char(c: char) -> bool {
    '\0' <= c <= '\u{7f}' && c != '&' && c != '='
}

proof fn lemma_form_byte_safe(b: u8)
    ensures
        forall|i: int| 0 <= i < form_byte(b).len() ==> form_safe_char(#[trigger] form_byte(b)[i]),
{
    let hi = b as int / 16;
    let lo = b as int % 16;
    assert(form_safe_char(hex_upper(hi)));
    assert(form_safe_char(hex_upper(lo)));
}

proof fn lemma_form_bytes_safe(bytes: Seq<u8>)
    ensures
        forall|i: int| 0 <= i < form_bytes(bytes).len() ==> form_safe_char(#[trigger] form_bytes(bytes)[i]),
    decreases bytes.len(),
{
    if bytes.len() > 0 {
        let front = form_bytes(bytes.drop_last());
        let back = form_byte(bytes.last());
        lemma_form_bytes_safe(bytes.drop_last());
        lemma_form_byte_safe(bytes.last());
        assert forall|i: int| 0 <= i < form_bytes(bytes).len() implies form_safe_char(
            #[trigger] form_bytes(bytes)[i],
        ) by {
            if i < front.len() {
                assert(form_bytes(bytes)[i] == front[i]);
            } else {
                assert(form_bytes(bytes)[i] == back[i - front.len()]);
            }
        }
    }
}

/// A serialized name or value holds only ASCII characters, and never `&`
/// or `=`: the characters that separate the fields of a form body.
pub proof fn lemma_form_component_safe(text: Seq<char>)
    ensures
        forall|i: int| 0 <= i < form_component(text).len() ==> form_safe_char(
            #[trigger] form_component(text)[i],
        ),
{
    lemma_form_bytes_safe(encode_utf8(text));
}

/// A form body is ASCII, whatever names and values it holds, so its length
/// in bytes is its length in characters.
pub proof fn lemma_form_encode_is_ascii(pairs: Seq<(Seq<char>, Seq<char>)>)
    ensures
        is_ascii_chars(form_encode(pairs)),
    decreases pairs.len(),
{
    if pairs.len() > 0 {
        let front = form_encode(pairs.drop_last());
        let name = form_component(pairs.last().0);
        let value = form_component(pairs.last().1);
        lemma_form_encode_is_ascii(pairs.drop_last());
        lemma_form_component_safe(pairs.last().0);
        lemma_form_component_safe(pairs.last().1);
        let pair = form_pair(pairs.last().0, pairs.last().1);
        assert forall|i: int| 0 <= i < pair.len() implies '\0' <= #[trigger] pair[i] <= '\u{7f}' by {
            if i < name.len() {
                assert(pair[i] == name[i]);
                assert(form_safe_char(name[i]));
            } else if i > name.len() {
                assert(pair[i] == value[i - name.len() - 1]);
                assert(form_safe_char(value[i - name.len() - 1]));
            } else {
                assert(pair[i] == '=');
            }
        }
        if front.len() > 0 {
            let whole = front + seq!['&'] + pair;
            assert forall|i: int| 0 <= i < whole.len() implies '\0' <= #[trigger] whole[i] <= '\u{7f}' by {
                if i < front.len() {
                    assert(whole[i] == front[i]);
                } else if i > front.len() {
                    assert(whole[i] == pair[i - front.len() - 1]);
                } else {
                    assert(whole[i] == '&');
                }
            }
        }
    }
}

/// Serializing two byte strings one after the other is serializing their
/// concatenation.
proof fn lemma_form_bytes_concat(a: Seq<u8>, b: Seq<u8>)
    ensures
        form_bytes(a + b) == form_bytes(a) + form_bytes(b),
    decreases b.len(),
{
    if b.len() == 0 {
        assert(a + b =~= a);
    } else {
        lemma_form_bytes_concat(a, b.drop_last());
        assert((a + b).drop_last() =~= a + b.drop_last());
        assert((a + b).last() == b.last());
    }
}

/// The value of an upper-case hexadecimal digit.
spec fn hex_value(c: char) -> int {
    if c <= '9' {
        c as int - 0x30
    } else {
        c as int - 0x41 + 10
    }
}

/// Reads serialized bytes back, from the front.
spec fn form_unbytes(s: Seq<char>) -> Seq<u8>
    decreases s.len(),
{
    if s.len() == 0 {
        Seq::empty()
    } else if s[0] == '%' && s.len() >= 3 {
        seq![(hex_value(s[1]) * 16 + hex_value(s[2])) as u8] + form_unbytes(s.skip(3))
    } else if s[0] == '+' {
        seq![0x20u8] + form_unbytes(s.skip(1))
    } else {
        seq![s[0] as u8] + form_unbytes(s.skip(1))
    }
}

proof fn lemma_form_unbytes_byte(b: u8, rest: Seq<char>)
    ensures
        form_unbytes(form_byte(b) + rest) == seq![b] + form_unbytes(rest),
{
    let s = form_byte(b) + rest;
    if form_byte_unchanged(b) {
        assert(s[0] == b as char);
        assert(s.skip(1) =~= rest);
    } else if b == 0x20 {
        assert(s[0] == '+');
        assert(s.skip(1) =~= rest);
    } else {
        let hi = b as int / 16;
        let lo = b as int % 16;
        assert(s[0] == '%');
        assert(s[1] == hex_upper(hi));
        assert(s[2] == hex_upper(lo));
        assert(hex_value(hex_upper(hi)) == hi);
        assert(hex_value(hex_upper(lo)) == lo);
        assert(s.skip(3) =~= rest);
        assert((hi * 16 + lo) as u8 == b);
    }
}

proof fn lemma_form_unbytes_bytes(b: Seq<u8>)
    ensures
        form_unbytes(form_bytes(b)) == b,
    decreases b.len(),
{
    if b.len() > 0 {
        let first = seq![b[0]];
        let rest = b.skip(1);
        assert(b =~= first + rest);
        lemma_form_bytes_concat(first, rest);
        assert(first.drop_last() =~= Seq::<u8>::empty());
        assert(first.last() == b[0]);
        assert(form_bytes(first.drop_last()) =~= Seq::<char>::empty());
        assert(form_bytes(first) =~= form_byte(b[0]));
        lemma_form_unbytes_byte(b[0], form_bytes(rest));
        lemma_form_unbytes_bytes(rest);
    }
}

/// Different texts serialize differently.
proof fn lemma_form_component_injective(a: Seq<char>, b: Seq<char>)
    requires
        form_component(a) == form_component(b),
    ensures
        a == b,
{
    lemma_form_unbytes_bytes(encode_utf8(a));
    lemma_form_unbytes_bytes(encode_utf8(b));
    vstd::utf8::encode_utf8_decode_utf8(a);
    vstd::utf8::encode_utf8_decode_utf8(b);
}

/// `s` holds no `c`.
spec fn lacks(s: Seq<char>, c: char) -> bool {
    forall|i: int| 0 <= i < s.len() ==> s[i] != c
}

/// A text cut at its last `c` cuts the same way however it was put together.
proof fn lemma_split_at_last(x: Seq<char>, y: Seq<char>, x2: Seq<char>, y2: Seq<char>, c: char)
    requires
        x + seq![c] + y == x2 + seq![c] + y2,
        lacks(y, c),
        lacks(y2, c),
    ensures
        x == x2,
        y == y2,
{
    let whole = x + seq![c] + y;
    let other = x2 + seq![c] + y2;
    assert(whole.len() == x.len() + 1 + y.len());
    assert(other.len() == x2.len() + 1 + y2.len());
    assert(whole[x.len() as int] == c);
    assert(other[x2.len() as int] == c);
    if x.len() < x2.len() {
        let k = x2.len() - x.len() - 1;
        assert(0 <= k < y.len());
        assert(whole[x2.len() as int] == y[k]);
        assert(false);
    } else if x2.len() < x.len() {
        let k = x.len() - x2.len() - 1;
        assert(0 <= k < y2.len());
        assert(other[x.len() as int] == y2[k]);
        assert(false);
    }
    assert(x =~= whole.subrange(0, x.len() as int));
    assert(x2 =~= (x2 + seq![c] + y2).subrange(0, x2.len() as int));
    assert(y =~= whole.subrange(x.len() as int + 1, whole.len() as int));
    assert(y2 =~= (x2 + seq![c] + y2).subrange(x2.len() as int + 1, whole.len() as int));
}

/// A text cut at its first `c` cuts the same way however it was put together.
proof fn lemma_split_at_first(x: Seq<char>, y: Seq<char>, x2: Seq<char>, y2: Seq<char>, c: char)
    requires
        x + seq![c] + y == x2 + seq![c] + y2,
        lacks(x, c),
        lacks(x2, c),
    ensures
        x == x2,
        y == y2,
{
    let whole = x + seq![c] + y;
    assert(whole[x.len() as int] == c);
    assert((x2 + seq![c] + y2)[x2.len() as int] == c);
    if x.len() < x2.len() {
        assert((x2 + seq![c] + y2)[x.len() as int] == x2[x.len() as int]);
    } else if x2.len() < x.len() {
        assert(whole[x2.len() as int] == x[x2.len() as int]);
    }
    assert(x =~= whole.subrange(0, x.len() as int));
    assert(x2 =~= (x2 + seq![c] + y2).subrange(0, x2.len() as int));
    assert(y =~= whole.subrange(x.len() as int + 1, whole.len() as int));
    assert(y2 =~= (x2 + seq![c] + y2).subrange(x2.len() as int + 1, whole.len() as int));
}

proof fn lemma_form_component_lacks(text: Seq<char>)
    ensures
        lacks(form_component(text), '&'),
        lacks(form_component(text), '='),
{
    lemma_form_component_safe(text);
}

proof fn lemma_form_pair_lacks_amp(name: Seq<char>, value: Seq<char>)
    ensures
        lacks(form_pair(name, value), '&'),
        form_pair(name, value).len() > 0,
{
    lemma_form_component_lacks(name);
    lemma_form_component_lacks(value);
    let n = form_component(name);
    let v = form_component(value);
    let p = form_pair(name, value);
    assert forall|i: int| 0 <= i < p.len() implies p[i] != '&' by {
        if i < n.len() {
            assert(p[i] == n[i]);
        } else if i > n.len() {
            assert(p[i] == v[i - n.len() - 1]);
        }
    }
}

proof fn lemma_form_pair_injective(n1: Seq<char>, v1: Seq<char>, n2: Seq<char>, v2: Seq<char>)
    requires
        form_pair(n1, v1) == form_pair(n2, v2),
    ensures
        n1 == n2,
        v1 == v2,
{
    lemma_form_component_lacks(n1);
    lemma_form_component_lacks(n2);
    lemma_split_at_first(form_component(n1), form_component(v1), form_component(n2), form_component(v2), '=');
    lemma_form_component_injective(n1, n2);
    lemma_form_component_injective(v1, v2);
}

/// The body of a non-empty list: the body of all but the last pair, then
/// `&` when that body is not empty, then the last pair.
proof fn lemma_form_encode_shape(pairs: Seq<(Seq<char>, Seq<char>)>)
    requires
        pairs.len() > 0,
    ensures
        pairs.len() == 1 ==> form_encode(pairs) == form_pair(pairs.last().0, pairs.last().1),
        pairs.len() > 1 ==> form_encode(pairs.drop_last()).len() > 0 && form_encode(pairs)
            == form_encode(pairs.drop_last()) + seq!['&'] + form_pair(pairs.last().0, pairs.last().1),
        form_encode(pairs).len() > 0,
        pairs.len() == 1 ==> lacks(form_encode(pairs), '&'),
        pairs.len() > 1 ==> !lacks(form_encode(pairs), '&'),
    decreases pairs.len(),
{
    lemma_form_pair_lacks_amp(pairs.last().0, pairs.last().1);
    if pairs.len() == 1 {
        assert(pairs.drop_last().len() == 0);
        assert(form_encode(pairs.drop_last()) =~= Seq::<char>::empty());
    } else {
        let front = pairs.drop_last();
        lemma_form_encode_shape(front);
        let whole = form_encode(front) + seq!['&'] + form_pair(pairs.last().0, pairs.last().1);
        assert(whole[form_encode(front).len() as int] == '&');
    }
}

/// The length of a form body in UTF-8 bytes (its `Content-Length`) is its
/// length in characters.
pub proof fn lemma_form_encode_byte_length(pairs: Seq<(Seq<char>, Seq<char>)>)
    ensures
        encode_utf8(form_encode(pairs)).len() == form_encode(pairs).len(),
{
    lemma_form_encode_is_ascii(pairs);
    vstd::utf8::is_ascii_chars_encode_utf8(form_encode(pairs));
}

/// A form body determines the pairs it was made from: two lists of
/// name/value pairs with the same body are the same list, so the names and
/// values can always be read back from it.
pub proof fn lemma_form_encode_injective(
    pairs: Seq<(Seq<char>, Seq<char>)>,
    other: Seq<(Seq<char>, Seq<char>)>,
)
    requires
        form_encode(pairs) == form_encode(other),
    ensures
        pairs == other,
    decreases pairs.len(),
{
    if pairs.len() == 0 {
        if other.len() > 0 {
            lemma_form_encode_shape(other);
        }
        assert(other.len() == 0);
        assert(pairs =~= other);
    } else {
        lemma_form_encode_shape(pairs);
        if other.len() == 0 {
            assert(false);
        }
        lemma_form_encode_shape(other);
        let p = pairs.last();
        let q = other.last();
        if pairs.len() == 1 {
            assert(other.len() == 1);
            lemma_form_pair_injective(p.0, p.1, q.0, q.1);
            assert(pairs =~= other);
        } else {
            assert(other.len() > 1);
            lemma_form_pair_lacks_amp(p.0, p.1);
            lemma_form_pair_lacks_amp(q.0, q.1);
            lemma_split_at_last(
                form_encode(pairs.drop_last()),
                form_pair(p.0, p.1),
                form_encode(other.drop_last()),
                form_pair(q.0, q.1),
                '&',
            );
            lemma_form_pair_injective(p.0, p.1, q.0, q.1);
            lemma_form_encode_injective(pairs.drop_last(), other.drop_last());
            assert(pairs =~= other.drop_last().push(q));
            assert(other =~= other.drop_last().push(q));
        }
    }
}

/// The values of the pairs named `name`, in order.
pub open spec fn values_named(pairs: Seq<(Seq<char>, Seq<char>)>, name: Seq<char>) -> Seq<Seq<char>>
    decreases pairs.len(),
{
    if pairs.len() == 0 {
        Seq::empty()
    } else if pairs.last().0 == name {
        values_named(pairs.drop_last(), name).push(pairs.last().1)
    } else {
        values_named(pairs.drop_last(), name)
    }
}

/// The values named `name` in two lists one after the other.
pub proof fn lemma_values_named_add(
    a: Seq<(Seq<char>, Seq<char>)>,
    b: Seq<(Seq<char>, Seq<char>)>,
    name: Seq<char>,
)
    ensures
        values_named(a + b, name) == values_named(a, name) + values_named(b, name),
    decreases b.len(),
{
    if b.len() == 0 {
        assert(a + b =~= a);
        assert(values_named(a, name) + values_named(b, name) =~= values_named(a, name));
    } else {
        lemma_values_named_add(a, b.drop_last(), name);
        assert((a + b).drop_last() =~= a + b.drop_last());
        assert((a + b).last() == b.last());
        if b.last().0 == name {
            assert(values_named(a, name) + values_named(b.drop_last(), name).push(b.last().1)
                =~= (values_named(a, name) + values_named(b.drop_last(), name)).push(b.last().1));
        }
    }
}

/// The values named `name` in a list of one pair.
pub proof fn lemma_values_named_one(key: Seq<char>, value: Seq<char>, name: Seq<char>)
    ensures
        values_named(seq![(key, value)], name) == (if key == name {
            seq![value]
        } else {
            Seq::<Seq<char>>::empty()
        }),
{
    assert(seq![(key, value)].drop_last() =~= Seq::<(Seq<char>, Seq<char>)>::empty());
    assert(seq![(key, value)].last() == (key, value));
    assert(values_named(Seq::<(Seq<char>, Seq<char>)>::empty(), name) == Seq::<Seq<char>>::empty());
    assert(Seq::<Seq<char>>::empty().push(value) =~= seq![value]);
}

/// The pairs of texts that a list of string pairs stands for.
pub open spec fn pairs_view(pairs: Seq<(&str, &str)>) -> Seq<(Seq<char>, Seq<char>)> {
    pairs.map_values(|p: (&str, &str)| (p.0@, p.1@))
}

} // verus!
