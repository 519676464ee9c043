use vstd::prelude::*;
use vstd::string::StrSliceExecFns;
use crate::decode::{reads, required, required_of, Decode, Sources, SourcesView};
use crate::dict::Dict;
use crate::error::{malformed, outcome, TiledError, TiledErrorView};
use crate::json::{Json, JsonView, Number};
use crate::{Color, TiledValue, TiledValueView};

verus! {

/// The properties of a map, a layer, a tile set, a tile or an object: typed
/// values by name.
pub type Properties = Dict<TiledValue>;

/// The value of a hexadecimal digit, in either case.
pub open spec fn hex_digit(c: char) -> Option<nat> {
    let n = c as u32;
    if 48 <= n <= 57 {
        Some((n - 48) as nat)
    } else if 97 <= n <= 102 {
        Some((n - 87) as nat)
    } else if 65 <= n <= 70 {
        Some((n - 55) as nat)
    } else {
        None
    }
}

/// Every character of `s` is a hexadecimal digit.
pub open spec fn is_hex(s: Seq<char>) -> bool {
    forall|i: int| 0 <= i < s.len() ==> hex_digit(#[trigger] s[i]) is Some
}

/// Sixteen to the power `n`.
pub open spec fn pow16(n: nat) -> nat
    decreases n,
{
    if n == 0 {
        1
    } else {
        16 * pow16((n - 1) as nat)
    }
}

/// The number that the digits `s` stand for, where the digit that comes
/// first weighs least: `"f2"` is 15 + 2 * 16.
pub open spec fn hex_value(s: Seq<char>) -> nat
    decreases s.len(),
{
    if s.len() == 0 {
        0
    } else {
        hex_value(s.drop_last()) + hex_digit(s.last()).unwrap() * pow16((s.len() - 1) as nat)
    }
}

/// A number of `n` digits is below sixteen to the `n`.
pub proof fn lemma_hex_value_bound(s: Seq<char>)
    requires
        is_hex(s),
    ensures
        hex_value(s) < pow16(s.len()),
    decreases s.len(),
{
    if s.len() > 0 {
        assert(is_hex(s.drop_last())) by {
            assert forall|i: int| 0 <= i < s.drop_last().len() implies hex_digit(
                #[trigger] s.drop_last()[i],
            ) is Some by {
                assert(s.drop_last()[i] == s[i]);
            }
        }
        lemma_hex_value_bound(s.drop_last());
        let d = hex_digit(s.last()).unwrap();
        let p = pow16((s.len() - 1) as nat);
        assert(d <= 15);
        assert(d * p <= 15 * p) by (nonlinear_arith)
            requires
                d <= 15,
        ;
    }
}

fn digit_of(c: char) -> (r: Option<u64>)
    ensures
        match hex_digit(c) {
            Some(d) => r == Some(d as u64),
            None => r is None,
        },
{
    let n: u32 = c as u32;
    if 48 <= n && n <= 57 {
        Some((n - 48) as u64)
    } else if 97 <= n && n <= 102 {
        Some((n - 87) as u64)
    } else if 65 <= n && n <= 70 {
        Some((n - 55) as u64)
    } else {
        None
    }
}

/// Reads up to eight hexadecimal digits, the first digit weighing least.
pub fn parse_hex(hex: &str) -> (dec: u32)
    requires
        hex@.len() <= 8,
        is_hex(hex@),
    ensures
        dec == hex_value(hex@),
{
    let n = hex.unicode_len();
    let mut dec: u64 = 0;
    let mut weight: u64 = 1;
    let mut i: usize = 0;
    assert(hex@.take(0) =~= Seq::<char>::empty());
    while i < n
        invariant
            n == hex@.len(),
            n <= 8,
            i <= n,
            is_hex(hex@),
            weight == pow16(i as nat),
            dec == hex_value(hex@.take(i as int)),
            dec < weight,
        decreases n - i,
    {
        let c = hex.get_char(i);
        let ghost front = hex@.take(i + 1);
        assert(front.drop_last() =~= hex@.take(i as int));
        assert(front.last() == hex@[i as int]);
        proof {
            reveal_with_fuel(pow16, 10);
        }
        let d = match digit_of(c) {
            Some(d) => d,
            None => {
                assert(false);
                0
            },
        };
        assert(d * weight <= 15 * weight) by (nonlinear_arith)
            requires
                d <= 15,
        ;
        dec = dec + d * weight;
        weight = weight * 16;
        i += 1;
    }
    proof {
        reveal_with_fuel(pow16, 10);
        assert(hex@.take(i as int) =~= hex@);
    }
    dec as u32
}

/// The number that two digits of `s` stand for, from place `at` on.
pub open spec fn hex_pair(s: Seq<char>, at: int) -> u32 {
    hex_value(s.subrange(at, at + 2)) as u32
}

/// The colour that `s` stands for.
///
/// What stands first is skipped: it is the `#`. Seven or eight characters
/// are red, green and blue, two digits each, with full alpha; nine or more
/// are alpha, red, green and blue. Within each pair the first digit weighs
/// least. Fewer than seven characters, or anything but hexadecimal digits
/// after the first character, is no colour.
pub open spec fn color_of(s: Seq<char>) -> Option<Color> {
    if s.len() < 7 || !is_hex(s.skip(1)) {
        None
    } else if s.len() < 9 {
        Some(Color(hex_pair(s, 1), hex_pair(s, 3), hex_pair(s, 5), 255))
    } else {
        Some(Color(hex_pair(s, 3), hex_pair(s, 5), hex_pair(s, 7), hex_pair(s, 1)))
    }
}

/// The digit, in lower case, for a value below sixteen.
pub open spec fn hex_char(d: nat) -> char {
    if d < 10 {
        ((48 + d) as u8) as char
    } else {
        ((87 + d) as u8) as char
    }
}

/// The text of the colour `c` in the long form: `#`, then alpha, red, green
/// and blue, two digits each, the digit that weighs least first.
pub open spec fn color_text(c: Color) -> Seq<char> {
    seq![
        '#',
        hex_char((c.3 % 16) as nat),
        hex_char((c.3 / 16) as nat),
        hex_char((c.0 % 16) as nat),
        hex_char((c.0 / 16) as nat),
        hex_char((c.1 % 16) as nat),
        hex_char((c.1 / 16) as nat),
        hex_char((c.2 % 16) as nat),
        hex_char((c.2 / 16) as nat),
    ]
}

/// Two digits stand for the first digit plus sixteen times the second.
pub proof fn lemma_hex_pair(s: Seq<char>, at: int)
    requires
        0 <= at,
        at + 2 <= s.len(),
        hex_digit(s[at]) is Some,
        hex_digit(s[at + 1]) is Some,
    ensures
        hex_pair(s, at) == hex_digit(s[at]).unwrap() + 16 * hex_digit(s[at + 1]).unwrap(),
        hex_pair(s, at) <= 255,
{
    let pair = s.subrange(at, at + 2);
    let first = pair.drop_last();
    let low = hex_digit(s[at]).unwrap();
    let high = hex_digit(s[at + 1]).unwrap();
    let one = pow16(0);
    let sixteen = pow16(1);
    reveal_with_fuel(pow16, 3);
    assert(pair.last() == s[at + 1]);
    assert(first.len() == 1);
    assert(first.last() == s[at]);
    assert(first.drop_last().len() == 0);
    assert(hex_value(first.drop_last()) == 0);
    assert(hex_value(first) == low * one);
    assert(hex_value(pair) == hex_value(first) + high * sixteen);
    assert(low * one == low && high * sixteen == 16 * high) by (nonlinear_arith)
        requires
            one == 1,
            sixteen == 16,
    ;
}

/// A colour with channels below 256 is read back from its text.
pub proof fn lemma_color_text_reads_back(c: Color)
    requires
        c.0 <= 255,
        c.1 <= 255,
        c.2 <= 255,
        c.3 <= 255,
    ensures
        color_of(color_text(c)) == Some(c),
{
    let s = color_text(c);
    assert forall|d: nat| d < 16 implies hex_digit(#[trigger] hex_char(d)) == Some(d) by {
        assert(d == 0 || d == 1 || d == 2 || d == 3 || d == 4 || d == 5 || d == 6 || d == 7 || d
            == 8 || d == 9 || d == 10 || d == 11 || d == 12 || d == 13 || d == 14 || d == 15);
    }
    assert(s.len() == 9);
    assert forall|i: int| 0 <= i < s.skip(1).len() implies hex_digit(#[trigger] s.skip(1)[i])
        is Some by {
        assert(s.skip(1)[i] == s[i + 1]);
    }
    lemma_hex_pair(s, 1);
    lemma_hex_pair(s, 3);
    lemma_hex_pair(s, 5);
    lemma_hex_pair(s, 7);
}

/// Reading a colour and writing it gives a text that reads as the same
/// colour, whichever form the first text had.
pub proof fn lemma_color_is_stable(s: Seq<char>)
    requires
        color_of(s) is Some,
    ensures
        color_of(color_text(color_of(s).unwrap())) == color_of(s),
{
    assert forall|i: int| 1 <= i < s.len() implies hex_digit(#[trigger] s[i]) is Some by {
        assert(s.skip(1)[i - 1] == s[i]);
    }
    lemma_hex_pair(s, 1);
    lemma_hex_pair(s, 3);
    lemma_hex_pair(s, 5);
    if s.len() >= 9 {
        lemma_hex_pair(s, 7);
    }
    lemma_color_text_reads_back(color_of(s).unwrap());
}

fn all_hex_after_first(text: &str) -> (b: bool)
    requires
        text@.len() >= 1,
    ensures
        b == is_hex(text@.skip(1)),
{
    let n = text.unicode_len();
    let mut i: usize = 1;
    while i < n
        invariant
            n == text@.len(),
            1 <= i <= n,
            forall|k: int| 1 <= k < i ==> hex_digit(#[trigger] text@[k]) is Some,
        decreases n - i,
    {
        let c = text.get_char(i);
        if digit_of(c).is_none() {
            assert(text@.skip(1)[i - 1] == text@[i as int]);
            return false;
        }
        i += 1;
    }
    assert forall|k: int| 0 <= k < text@.skip(1).len() implies hex_digit(
        #[trigger] text@.skip(1)[k],
    ) is Some by {
        assert(text@.skip(1)[k] == text@[k + 1]);
    }
    true
}

fn pair_at(text: &str, at: usize) -> (v: u32)
    requires
        1 <= at <= 7,
        at + 2 <= text@.len(),
        is_hex(text@.skip(1)),
    ensures
        v == hex_pair(text@, at as int),
{
    let part = text.substring_char(at, at + 2);
    assert forall|k: int| 0 <= k < part@.len() implies hex_digit(#[trigger] part@[k]) is Some by {
        assert(part@[k] == text@.skip(1)[at - 1 + k]);
    }
    proof {
        lemma_hex_value_bound(part@);
        reveal_with_fuel(pow16, 3);
    }
    parse_hex(part)
}

/// Reads a colour written as `#RRGGBB` or `#AARRGGBB`.
pub fn decode_color(text: &str) -> (r: Option<Color>)
    ensures
        r == color_of(text@),
{
    let n = text.unicode_len();
    if n < 7 {
        return None;
    }
    if !all_hex_after_first(text) {
        return None;
    }
    if n < 9 {
        Some(Color(pair_at(text, 1), pair_at(text, 3), pair_at(text, 5), 255))
    } else {
        Some(Color(pair_at(text, 3), pair_at(text, 5), pair_at(text, 7), pair_at(text, 1)))
    }
}

impl Decode for Color {
    open spec fn decoded(j: JsonView, key: Seq<char>, sources: SourcesView) -> Result<
        Color,
        TiledErrorView,
    > {
        match j {
            JsonView::String(s) => match color_of(s) {
                Some(c) => Ok(c),
                None => malformed(key),
            },
            _ => malformed(key),
        }
    }

    fn decode(j: &Json, key: &str, sources: &Sources) -> (r: Result<Color, TiledError>) {
        match j {
            Json::String(s) => match decode_color(s.as_str()) {
                Some(c) => Ok(c),
                None => Err(TiledError::format(key)),
            },
            _ => Err(TiledError::format(key)),
        }
    }
}

/// Decodes a colour: `j` must be a string that [`color_of`] accepts.
pub fn parse_color(j: &Json, key: &str) -> (r: Result<Color, TiledError>)
    ensures
        outcome(r) == Color::decoded(j@, key@, Map::empty()),
{
    let none: Sources = Dict::new();
    Color::decode(j, key, &none)
}

/// Decodes a path: `j` must be a string, which is the path, unchanged.
pub fn parse_path(j: &Json, key: &str) -> (r: Result<String, TiledError>)
    ensures
        outcome(r) == String::decoded(j@, key@, Map::empty()),
{
    let none: Sources = Dict::new();
    String::decode(j, key, &none)
}

/// The word that the four bytes of `bytes` from place `4 * i` on stand for,
/// the byte that comes first weighing least.
pub open spec fn word_at(bytes: Seq<u8>, i: int) -> u32 {
    (bytes[4 * i] + bytes[4 * i + 1] * 0x100 + bytes[4 * i + 2] * 0x1_0000 + bytes[4 * i + 3]
        * 0x100_0000) as u32
}

/// The 32-bit words that `bytes` stand for, four bytes a word; `None` where
/// bytes are left over.
pub open spec fn words_of(bytes: Seq<u8>) -> Option<Seq<u32>> {
    if bytes.len() % 4 == 0 {
        Some(Seq::new(bytes.len() / 4, |i: int| word_at(bytes, i)))
    } else {
        None
    }
}

/// The bytes that stand for `words`: four bytes a word, the byte that weighs
/// least first.
pub open spec fn bytes_of(words: Seq<u32>) -> Seq<u8> {
    Seq::new(
        4 * words.len(),
        |k: int|
            if k % 4 == 0 {
                (words[k / 4] % 0x100) as u8
            } else if k % 4 == 1 {
                (words[k / 4] / 0x100 % 0x100) as u8
            } else if k % 4 == 2 {
                (words[k / 4] / 0x1_0000 % 0x100) as u8
            } else {
                (words[k / 4] / 0x100_0000) as u8
            },
    )
}

/// Words that are written as bytes and read back are the same words.
pub proof fn lemma_words_round_trip(words: Seq<u32>)
    ensures
        words_of(bytes_of(words)) == Some(words),
{
    let bytes = bytes_of(words);
    assert(bytes.len() % 4 == 0);
    let back = words_of(bytes).unwrap();
    assert(back.len() == words.len());
    assert forall|i: int| 0 <= i < words.len() implies back[i] == words[i] by {
        let w = words[i];
        assert(bytes[4 * i] == (w % 0x100) as u8);
        assert(bytes[4 * i + 1] == (w / 0x100 % 0x100) as u8);
        assert(bytes[4 * i + 2] == (w / 0x1_0000 % 0x100) as u8);
        assert(bytes[4 * i + 3] == (w / 0x100_0000) as u8);
    }
    assert(back =~= words);
}

/// Groups bytes into 32-bit words, the byte that comes first weighing least.
pub fn words_from_bytes(bytes: &Vec<u8>) -> (r: Option<Vec<u32>>)
    ensures
        match r {
            Some(words) => words_of(bytes@) == Some(words@),
            None => words_of(bytes@) is None,
        },
{
    let n = bytes.len();
    if n % 4 != 0 {
        return None;
    }
    let count = n / 4;
    let mut words: Vec<u32> = Vec::new();
    let mut i: usize = 0;
    while i < count
        invariant
            n == bytes.len(),
            n == 4 * count,
            i <= count,
            words.len() == i,
            forall|k: int| 0 <= k < i ==> #[trigger] words[k] == word_at(bytes@, k),
        decreases count - i,
    {
        let b0: u32 = bytes[4 * i] as u32;
        let b1: u32 = bytes[4 * i + 1] as u32;
        let b2: u32 = bytes[4 * i + 2] as u32;
        let b3: u32 = bytes[4 * i + 3] as u32;
        words.push(b0 + b1 * 0x100 + b2 * 0x1_0000 + b3 * 0x100_0000);
        i += 1;
    }
    assert(words@ =~= words_of(bytes@).unwrap());
    Some(words)
}

/// `base64::DecodeError`, which is only ever dropped.
#[verifier::external_type_specification]
#[verifier::external_body]
pub struct ExDecodeError(base64::DecodeError);

/// The bytes that `text` stands for in base64, `None` where it is not base64.
pub uninterp spec fn base64_bytes(text: Seq<char>) -> Option<Seq<u8>>;

/// `base64::decode`: succeeds on exactly the texts that are base64, and then
/// gives the bytes that the text stands for. Nothing is claimed about which
/// texts those are, nor about the bytes.
#[verifier::external_body]
fn decode_base64(text: &str) -> (r: Result<Vec<u8>, base64::DecodeError>)
    ensures
        r is Ok <==> base64_bytes(text@) is Some,
        r matches Ok(bytes) ==> base64_bytes(text@) == Some(bytes@),
{
    base64::decode(text)
}

/// What packed tile data gives once its base64 has been undone: `bytes` as
/// words, or the failure that names `key` where there is no base64 or bytes
/// are left over.
pub open spec fn packed_data_of(bytes: Option<Seq<u8>>, key: Seq<char>) -> Result<
    Seq<u32>,
    TiledErrorView,
> {
    match bytes {
        Some(b) => match words_of(b) {
            Some(words) => Ok(words),
            None => malformed(key),
        },
        None => malformed(key),
    }
}

/// What the tile data `j` decodes to: a list of integers is taken as it
/// stands; a string is base64 for words of four bytes each.
pub open spec fn tile_data_of(j: JsonView, key: Seq<char>) -> Result<Seq<u32>, TiledErrorView> {
    match j {
        JsonView::String(text) => packed_data_of(base64_bytes(text), key),
        other => Vec::<u32>::decoded(other, key, Map::empty()),
    }
}

/// Turns the outcome of undoing base64 into tile data.
pub fn unpack_data(bytes: Option<Vec<u8>>, key: &str) -> (r: Result<Vec<u32>, TiledError>)
    ensures
        outcome(r) == packed_data_of(bytes.deep_view(), key@),
{
    match bytes {
        Some(b) => {
            assert(b.deep_view() =~= b@);
            match words_from_bytes(&b) {
                Some(words) => {
                    assert(words.deep_view() =~= words@);
                    Ok(words)
                },
                None => Err(TiledError::format(key)),
            }
        },
        None => Err(TiledError::format(key)),
    }
}

/// Decodes tile data: a list of global tile ids, or base64 for them.
///
/// Compressed data is not undone: it decodes to words without meaning.
pub fn parse_data(j: &Json, key: &str) -> (r: Result<Vec<u32>, TiledError>)
    ensures
        outcome(r) == tile_data_of(j@, key@),
{
    match j {
        Json::String(text) => {
            let bytes = match decode_base64(text.as_str()) {
                Ok(b) => {
                    assert(b.deep_view() =~= b@);
                    Some(b)
                },
                Err(_) => None,
            };
            unpack_data(bytes, key)
        },
        _ => {
            let none: Sources = Dict::new();
            Vec::<u32>::decode(j, key, &none)
        },
    }
}

/// The value of the property record `j`, which its type tag `tag` selects.
pub open spec fn tagged_value_of(j: JsonView, tag: Seq<char>) -> Result<
    TiledValueView,
    TiledErrorView,
> {
    let none = Map::<Seq<char>, Seq<char>>::empty();
    let key = "value"@;
    if tag == "bool"@ {
        match required_of::<bool>(j, key, none) {
            Ok(v) => Ok(TiledValueView::Bool(v)),
            Err(e) => Err(e),
        }
    } else if tag == "float"@ {
        match required_of::<Number>(j, key, none) {
            Ok(v) => Ok(TiledValueView::Float(v)),
            Err(e) => Err(e),
        }
    } else if tag == "int"@ {
        match required_of::<u32>(j, key, none) {
            Ok(v) => Ok(TiledValueView::Int(v)),
            Err(e) => Err(e),
        }
    } else if tag == "color"@ {
        match required_of::<Color>(j, key, none) {
            Ok(v) => Ok(TiledValueView::Color(v)),
            Err(e) => Err(e),
        }
    } else if tag == "string"@ {
        match required_of::<String>(j, key, none) {
            Ok(v) => Ok(TiledValueView::String(v)),
            Err(e) => Err(e),
        }
    } else if tag == "file"@ {
        match required_of::<String>(j, key, none) {
            Ok(v) => Ok(TiledValueView::File(v)),
            Err(e) => Err(e),
        }
    } else if tag == "class"@ {
        match required_of::<Json>(j, key, none) {
            Ok(v) => Ok(TiledValueView::Class(v)),
            Err(e) => Err(e),
        }
    } else {
        malformed("type"@)
    }
}

/// The name and the value of the property record `j`.
pub open spec fn property_of(j: JsonView) -> Result<(Seq<char>, TiledValueView), TiledErrorView> {
    let none = Map::<Seq<char>, Seq<char>>::empty();
    match required_of::<String>(j, "name"@, none) {
        Err(e) => Err(e),
        Ok(name) => match required_of::<String>(j, "type"@, none) {
            Err(e) => Err(e),
            Ok(tag) => match tagged_value_of(j, tag) {
                Err(e) => Err(e),
                Ok(value) => Ok((name, value)),
            },
        },
    }
}

/// The map that the property records `items` give, taken in order: of two
/// records with one name the later one counts.
pub open spec fn properties_of(items: Seq<JsonView>) -> Result<
    Map<Seq<char>, TiledValueView>,
    TiledErrorView,
>
    decreases items.len(),
{
    if items.len() == 0 {
        Ok(Map::empty())
    } else {
        match properties_of(items.drop_last()) {
            Err(e) => Err(e),
            Ok(front) => match property_of(items.last()) {
                Err(e) => Err(e),
                Ok(entry) => Ok(front.insert(entry.0, entry.1)),
            },
        }
    }
}

/// Of the records with one name, the last one gives the value: a record
/// after which no record has its name is what the map holds for that name.
pub proof fn lemma_last_property_counts(items: Seq<JsonView>, i: int)
    requires
        properties_of(items) is Ok,
        0 <= i < items.len(),
        forall|k: int|
            i < k < items.len() ==> (#[trigger] property_of(items[k]))->Ok_0.0 != property_of(
                items[i],
            )->Ok_0.0,
    ensures
        property_of(items[i]) is Ok,
        properties_of(items)->Ok_0.dom().contains(property_of(items[i])->Ok_0.0),
        properties_of(items)->Ok_0[property_of(items[i])->Ok_0.0] == property_of(
            items[i],
        )->Ok_0.1,
    decreases items.len(),
{
    let front = items.drop_last();
    if i < items.len() - 1 {
        assert(front[i] == items[i]);
        assert forall|k: int| i < k < front.len() implies (#[trigger] property_of(
            front[k],
        ))->Ok_0.0 != property_of(front[i])->Ok_0.0 by {
            assert(front[k] == items[k]);
        }
        lemma_last_property_counts(front, i);
        assert(property_of(items[items.len() - 1])->Ok_0.0 != property_of(items[i])->Ok_0.0);
    }
}

/// The map holds a name exactly where some record has it.
pub proof fn lemma_property_names(items: Seq<JsonView>, name: Seq<char>)
    requires
        properties_of(items) is Ok,
    ensures
        properties_of(items)->Ok_0.dom().contains(name) <==> exists|i: int|
            0 <= i < items.len() && (#[trigger] property_of(items[i]))->Ok_0.0 == name,
        forall|i: int| 0 <= i < items.len() ==> (#[trigger] property_of(items[i])) is Ok,
    decreases items.len(),
{
    if items.len() > 0 {
        let front = items.drop_last();
        lemma_property_names(front, name);
        let last = items.len() - 1;
        if properties_of(front)->Ok_0.dom().contains(name) {
            let i = choose|i: int|
                0 <= i < front.len() && (#[trigger] property_of(front[i]))->Ok_0.0 == name;
            assert(front[i] == items[i]);
            assert(property_of(items[i])->Ok_0.0 == name);
        }
        if exists|i: int|
            0 <= i < items.len() && (#[trigger] property_of(items[i]))->Ok_0.0 == name {
            let i = choose|i: int|
                0 <= i < items.len() && (#[trigger] property_of(items[i]))->Ok_0.0 == name;
            if i < last {
                assert(front[i] == items[i]);
                assert(property_of(front[i])->Ok_0.0 == name);
            }
        }
        assert forall|i: int| 0 <= i < items.len() implies (#[trigger] property_of(items[i]))
            is Ok by {
            if i < last {
                assert(front[i] == items[i]);
            }
        }
    }
}

/// Once a front part of `items` fails, all of `items` fails in the same way.
pub proof fn lemma_properties_fail(items: Seq<JsonView>, n: int)
    requires
        0 <= n <= items.len(),
        properties_of(items.take(n)) is Err,
    ensures
        properties_of(items) == properties_of(items.take(n)),
    decreases items.len() - n,
{
    if n < items.len() {
        assert(items.take(n + 1).drop_last() =~= items.take(n));
        lemma_properties_fail(items, n + 1);
    } else {
        assert(items.take(n) =~= items);
    }
}

fn tagged_value(j: &Json, tag: &String) -> (r: Result<TiledValue, TiledError>)
    ensures
        outcome(r) == tagged_value_of(j@, tag@),
{
    let none: Sources = Dict::new();
    if reads(tag, "bool") {
        Ok(TiledValue::Bool(required::<bool>(j, "value", &none)?))
    } else if reads(tag, "float") {
        Ok(TiledValue::Float(required::<Number>(j, "value", &none)?))
    } else if reads(tag, "int") {
        Ok(TiledValue::Int(required::<u32>(j, "value", &none)?))
    } else if reads(tag, "color") {
        Ok(TiledValue::Color(required::<Color>(j, "value", &none)?))
    } else if reads(tag, "string") {
        Ok(TiledValue::String(required::<String>(j, "value", &none)?))
    } else if reads(tag, "file") {
        Ok(TiledValue::File(required::<String>(j, "value", &none)?))
    } else if reads(tag, "class") {
        Ok(TiledValue::Class(required::<Json>(j, "value", &none)?))
    } else {
        Err(TiledError::format("type"))
    }
}

fn property(j: &Json) -> (r: Result<(String, TiledValue), TiledError>)
    ensures
        outcome(r) == property_of(j@),
{
    let none: Sources = Dict::new();
    let name = required::<String>(j, "name", &none)?;
    let tag = required::<String>(j, "type", &none)?;
    let value = tagged_value(j, &tag)?;
    Ok((name, value))
}

impl Decode for Dict<TiledValue> {
    open spec fn decoded(j: JsonView, key: Seq<char>, sources: SourcesView) -> Result<
        Map<Seq<char>, TiledValueView>,
        TiledErrorView,
    > {
        match j {
            JsonView::Array(items) => properties_of(items),
            _ => malformed(key),
        }
    }

    fn decode(j: &Json, key: &str, sources: &Sources) -> (r: Result<Properties, TiledError>) {
        match j {
            Json::Array(items) => {
                let mut bag: Properties = Dict::new();
                let mut i: usize = 0;
                assert(j@->Array_0.take(0) =~= Seq::<JsonView>::empty());
                while i < items.len()
                    invariant
                        i <= items.len(),
                        *j == Json::Array(*items),
                        properties_of(j@->Array_0.take(i as int)) == Ok::<
                            Map<Seq<char>, TiledValueView>,
                            TiledErrorView,
                        >(bag@),
                    decreases items.len() - i,
                {
                    let ghost all = j@->Array_0;
                    assert(all.take(i + 1).drop_last() =~= all.take(i as int));
                    assert(all.take(i + 1).last() == items[i as int]@);
                    match property(&items[i]) {
                        Ok(entry) => {
                            bag.insert(entry.0, entry.1);
                        },
                        Err(e) => {
                            proof {
                                lemma_properties_fail(all, i + 1);
                            }
                            return Err(e);
                        },
                    }
                    i += 1;
                }
                assert(j@->Array_0.take(i as int) =~= j@->Array_0);
                Ok(bag)
            },
            _ => Err(TiledError::format(key)),
        }
    }
}

/// Decodes a property bag: a list of records, each with a `name`, a `type`
/// and a `value` whose shape the type selects.
pub fn parse_property(j: &Json, key: &str) -> (r: Result<Properties, TiledError>)
    ensures
        outcome(r) == Properties::decoded(j@, key@, Map::empty()),
{
    let none: Sources = Dict::new();
    Properties::decode(j, key, &none)
}

} // verus!
