use vstd::prelude::*;
use serde_json::Value;
use crate::error::TiledError;

verus! {

/// A number as a JSON document wrote it.
///
/// A real number is held as the 64 bits of its IEEE-754 double, so that it
/// can be carried through exactly; the library does no arithmetic on reals.
#[derive(Clone, Copy, Debug, PartialEq, Eq)]
pub enum Number {
    /// An integer that is zero or more.
    PosInt(u64),
    /// An integer below zero.
    NegInt(i64),
    /// Anything written with a fraction or an exponent: the bits of the double.
    Float(u64),
}

impl DeepView for Number {
    type V = Number;

    open spec fn deep_view(&self) -> Number {
        *self
    }
}

impl Number {
    /// The integer that the number is, if it was written as one.
    pub open spec fn as_int(self) -> Option<int> {
        match self {
            Number::PosInt(n) => Some(n as int),
            Number::NegInt(n) => Some(n as int),
            Number::Float(_) => None,
        }
    }

    /// The number as an integer between `low` and `high`, both included.
    pub open spec fn within(self, low: int, high: int) -> Option<int> {
        match self.as_int() {
            Some(n) => if low <= n <= high { Some(n) } else { None },
            None => None,
        }
    }

    /// The number as an unsigned 32-bit integer, if it is one.
    pub fn to_u32(&self) -> (r: Option<u32>)
        ensures
            match self.within(0, u32::MAX as int) {
                Some(n) => r == Some(n as u32),
                None => r is None,
            },
    {
        match *self {
            Number::PosInt(n) => if n <= 0xffff_ffff { Some(n as u32) } else { None },
            Number::NegInt(n) => if 0 <= n && n <= 0xffff_ffff { Some(n as u32) } else { None },
            Number::Float(_) => None,
        }
    }

    /// The number as a signed 32-bit integer, if it is one.
    pub fn to_i32(&self) -> (r: Option<i32>)
        ensures
            match self.within(i32::MIN as int, i32::MAX as int) {
                Some(n) => r == Some(n as i32),
                None => r is None,
            },
    {
        match *self {
            Number::PosInt(n) => if n <= 0x7fff_ffff { Some(n as i32) } else { None },
            Number::NegInt(n) => if -0x8000_0000 <= n && n <= 0x7fff_ffff { Some(n as i32) } else { None },
            Number::Float(_) => None,
        }
    }

    /// The number as an unsigned 8-bit integer, if it is one.
    pub fn to_u8(&self) -> (r: Option<u8>)
        ensures
            match self.within(0, u8::MAX as int) {
                Some(n) => r == Some(n as u8),
                None => r is None,
            },
    {
        match *self {
            Number::PosInt(n) => if n <= 0xff { Some(n as u8) } else { None },
            Number::NegInt(n) => if 0 <= n && n <= 0xff { Some(n as u8) } else { None },
            Number::Float(_) => None,
        }
    }

    /// The number as a signed 8-bit integer, if it is one.
    pub fn to_i8(&self) -> (r: Option<i8>)
        ensures
            match self.within(i8::MIN as int, i8::MAX as int) {
                Some(n) => r == Some(n as i8),
                None => r is None,
            },
    {
        match *self {
            Number::PosInt(n) => if n <= 0x7f { Some(n as i8) } else { None },
            Number::NegInt(n) => if -0x80 <= n && n <= 0x7f { Some(n as i8) } else { None },
            Number::Float(_) => None,
        }
    }
}

/// A JSON document as a tree.
///
/// An object keeps its members in a list; a key is looked up from the front,
/// so of two members with one key the first is the one that counts.
#[derive(Debug, PartialEq)]
pub enum Json {
    Null,
    Bool(bool),
    Number(Number),
    String(String),
    Array(Vec<Json>),
    Object(Vec<(String, Json)>),
}

/// The mathematical value of a [`Json`] tree.
pub enum JsonView {
    Null,
    Bool(bool),
    Number(Number),
    String(Seq<char>),
    Array(Seq<JsonView>),
    Object(Seq<(Seq<char>, JsonView)>),
}

/// The value of a tree: strings and lists by their contents.
pub open spec fn json_view(j: Json) -> JsonView
    decreases j,
{
    match j {
        Json::Null => JsonView::Null,
        Json::Bool(b) => JsonView::Bool(b),
        Json::Number(n) => JsonView::Number(n),
        Json::String(s) => JsonView::String(s@),
        Json::Array(items) => JsonView::Array(
            Seq::new(
                items.len() as nat,
                |i: int|
                    if 0 <= i < items.len() {
                        proof {
                            vstd::std_specs::vec::axiom_vec_index_decreases(items, i);
                            assert(decreases_to!(j => j->Array_0));
                        }
                        json_view(items[i])
                    } else {
                        JsonView::Null
                    },
            ),
        ),
        Json::Object(members) => JsonView::Object(
            Seq::new(
                members.len() as nat,
                |i: int|
                    if 0 <= i < members.len() {
                        proof {
                            vstd::std_specs::vec::axiom_vec_index_decreases(members, i);
                            assert(decreases_to!(j => j->Object_0));
                            assert(decreases_to!(members[i] => members[i].1));
                        }
                        (members[i].0@, json_view(members[i].1))
                    } else {
                        (Seq::empty(), JsonView::Null)
                    },
            ),
        ),
    }
}

impl View for Json {
    type V = JsonView;

    open spec fn view(&self) -> JsonView {
        json_view(*self)
    }
}

impl DeepView for Json {
    type V = JsonView;

    open spec fn deep_view(&self) -> JsonView {
        json_view(*self)
    }
}

/// The value of the first member of `members` whose key is `key`.
pub open spec fn lookup(members: Seq<(Seq<char>, JsonView)>, key: Seq<char>) -> Option<JsonView>
    decreases members.len(),
{
    if members.len() == 0 {
        None
    } else if members[0].0 == key {
        Some(members[0].1)
    } else {
        lookup(members.drop_first(), key)
    }
}

/// A value found by [`lookup`] is the value of one of the members.
pub proof fn lemma_lookup_is_member(members: Seq<(Seq<char>, JsonView)>, key: Seq<char>)
    ensures
        lookup(members, key) matches Some(v) ==> exists|i: int|
            0 <= i < members.len() && members[i].0 == key && #[trigger] members[i].1 == v,
    decreases members.len(),
{
    if members.len() > 0 && members[0].0 != key {
        let rest = members.drop_first();
        lemma_lookup_is_member(rest, key);
        if let Some(v) = lookup(rest, key) {
            let i = choose|i: int| 0 <= i < rest.len() && rest[i].0 == key && #[trigger] rest[i].1 == v;
            assert(members[i + 1].1 == v);
        }
    }
}

/// A member of a value is smaller than the value.
pub proof fn lemma_member_is_smaller(j: JsonView, key: Seq<char>)
    ensures
        j.member(key) matches Some(v) ==> decreases_to!(j => v),
{
    if let JsonView::Object(members) = j {
        lemma_lookup_is_member(members, key);
        if let Some(v) = lookup(members, key) {
            let i = choose|i: int|
                0 <= i < members.len() && members[i].0 == key && #[trigger] members[i].1 == v;
            assert(decreases_to!(j => j->Object_0));
            assert(decreases_to!(members => members[i]));
            assert(decreases_to!(members[i] => members[i].1));
        }
    }
}

impl JsonView {
    /// The member `key` of an object; `None` where there is none, and on
    /// anything that is not an object.
    pub open spec fn member(self, key: Seq<char>) -> Option<JsonView> {
        match self {
            JsonView::Object(members) => lookup(members, key),
            _ => None,
        }
    }

    /// The member `key`, where `null` counts as absent.
    pub open spec fn member_if_set(self, key: Seq<char>) -> Option<JsonView> {
        match self.member(key) {
            Some(JsonView::Null) => None,
            other => other,
        }
    }
}

impl Clone for Json {
    /// A copy of the whole tree.
    fn clone(&self) -> (r: Json)
        ensures
            r@ == self@,
        decreases self,
    {
        match self {
            Json::Null => Json::Null,
            Json::Bool(b) => Json::Bool(*b),
            Json::Number(n) => Json::Number(*n),
            Json::String(s) => Json::String(s.clone()),
            Json::Array(items) => {
                let mut out: Vec<Json> = Vec::new();
                let mut i: usize = 0;
                while i < items.len()
                    invariant
                        i <= items.len(),
                        *self == Json::Array(*items),
                        out.len() == i,
                        forall|k: int| 0 <= k < i ==> (#[trigger] out[k])@ == items[k]@,
                    decreases items.len() - i,
                {
                    proof {
                        vstd::std_specs::vec::axiom_vec_index_decreases(*items, i as int);
                        assert(decreases_to!(*self => self->Array_0));
                    }
                    let item = items[i].clone();
                    out.push(item);
                    i += 1;
                }
                let r = Json::Array(out);
                assert(r@->Array_0 =~= self@->Array_0);
                r
            },
            Json::Object(members) => {
                let mut out: Vec<(String, Json)> = Vec::new();
                let mut i: usize = 0;
                while i < members.len()
                    invariant
                        i <= members.len(),
                        *self == Json::Object(*members),
                        out.len() == i,
                        forall|k: int|
                            0 <= k < i ==> (#[trigger] out[k]).0@ == members[k].0@ && out[k].1@
                                == members[k].1@,
                    decreases members.len() - i,
                {
                    proof {
                        vstd::std_specs::vec::axiom_vec_index_decreases(*members, i as int);
                        assert(decreases_to!(*self => self->Object_0));
                        assert(decreases_to!(members[i as int] => members[i as int].1));
                    }
                    let value = members[i].1.clone();
                    out.push((members[i].0.clone(), value));
                    i += 1;
                }
                let r = Json::Object(out);
                assert(r@->Object_0 =~= self@->Object_0);
                r
            },
        }
    }
}

impl Json {
    /// Whether the value is an object.
    pub fn is_object(&self) -> (b: bool)
        ensures
            b == (self@ is Object),
    {
        match self {
            Json::Object(_) => true,
            _ => false,
        }
    }

    /// The member `key` of an object.
    pub fn get(&self, key: &str) -> (r: Option<&Json>)
        ensures
            r.deep_view() == self@.member(key@),
            r matches Some(v) ==> decreases_to!(self => v),
    {
        match self {
            Json::Object(members) => {
                let wanted = key.to_owned();
                let mut i: usize = 0;
                assert(self@->Object_0.skip(0) =~= self@->Object_0);
                while i < members.len()
                    invariant
                        i <= members.len(),
                        wanted@ == key@,
                        *self == Json::Object(*members),
                        self@.member(key@) == lookup(self@->Object_0.skip(i as int), key@),
                    decreases members.len() - i,
                {
                    proof {
                        let rest = self@->Object_0.skip(i as int);
                        assert(rest[0] == self@->Object_0[i as int]);
                        assert(rest.drop_first() =~= self@->Object_0.skip(i + 1));
                    }
                    if members[i].0 == wanted {
                        proof {
                            vstd::std_specs::vec::axiom_vec_index_decreases(*members, i as int);
                            assert(decreases_to!(*self => self->Object_0));
                            assert(decreases_to!(members[i as int] => members[i as int].1));
                        }
                        return Some(&members[i].1);
                    }
                    i += 1;
                }
                None
            },
            _ => None,
        }
    }

    /// The member `key` of an object, where `null` counts as absent.
    pub fn get_if_set(&self, key: &str) -> (r: Option<&Json>)
        ensures
            r.deep_view() == self@.member_if_set(key@),
            r matches Some(v) ==> decreases_to!(self => v),
    {
        match self.get(key) {
            Some(Json::Null) => None,
            other => other,
        }
    }

    /// Reads a JSON document; `None` where the text is not one.
    pub fn read(text: &str) -> (r: Option<Json>)
        ensures
            r.deep_view() == json_document(text@),
    {
        match read_value(text) {
            Ok(value) => Some(tree_of(&value)),
            Err(_) => None,
        }
    }

    /// Reads a JSON document.
    pub fn parse(text: &str) -> (r: Result<Json, TiledError>)
        ensures
            match json_document(text@) {
                Some(tree) => r matches Ok(j) && j@ == tree,
                None => r == Err::<Json, TiledError>(TiledError::Syntax),
            },
    {
        match Json::read(text) {
            Some(tree) => Ok(tree),
            None => Err(TiledError::Syntax),
        }
    }
}

/// `serde_json::Value`, of which nothing is known here but what
/// [`value_tree`] says.
#[verifier::external_type_specification]
#[verifier::external_body]
pub struct ExValue(Value);

/// `serde_json::Error`, which is only ever dropped.
#[verifier::external_type_specification]
#[verifier::external_body]
pub struct ExSyntaxError(serde_json::Error);

/// The tree that `text` denotes as a JSON document, `None` where it is not one.
pub uninterp spec fn json_document(text: Seq<char>) -> Option<JsonView>;

/// What a `serde_json::Value` holds, as a tree of this library.
pub uninterp spec fn value_tree(value: Value) -> JsonView;

/// `serde_json::from_str` at `serde_json::Value`: succeeds on exactly the
/// texts that are JSON documents, and then holds the tree that the text
/// denotes. Nothing is claimed about what that tree is.
#[verifier::external_body]
fn read_value(text: &str) -> (r: Result<Value, serde_json::Error>)
    ensures
        r is Ok <==> json_document(text@) is Some,
        r matches Ok(value) ==> json_document(text@) == Some(value_tree(value)),
{
    serde_json::from_str(text)
}

/// Copies a `serde_json::Value` into a [`Json`], variant by variant; a number
/// goes by `as_u64`, `as_i64` and `as_f64`, and an object's members come in
/// the order in which `serde_json` walks them.
#[verifier::external_body]
fn tree_of(value: &Value) -> (r: Json)
    ensures
        r@ == value_tree(*value),
{
    match value {
        Value::Null => Json::Null,
        Value::Bool(b) => Json::Bool(*b),
        Value::Number(n) => Json::Number(match (n.as_u64(), n.as_i64()) {
            (Some(u), _) => Number::PosInt(u),
            (_, Some(i)) => Number::NegInt(i),
            _ => Number::Float(n.as_f64().unwrap_or_default().to_bits()),
        }),
        Value::String(s) => Json::String(s.clone()),
        Value::Array(a) => Json::Array(a.iter().map(tree_of).collect()),
        Value::Object(o) => Json::Object(o.iter().map(|(k, v)| (k.clone(), tree_of(v))).collect()),
    }
}

} // verus!
