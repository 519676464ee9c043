use vstd::prelude::*;
use crate::dict::Dict;
use crate::error::{malformed, outcome, TiledError, TiledErrorView};
use crate::json::{Json, JsonView, Number};

verus! {

/// The text of every file that a document may refer to, by the path under
/// which the document names it.
pub type Sources = Dict<String>;

/// The mathematical value of [`Sources`].
pub type SourcesView = Map<Seq<char>, Seq<char>>;

/// A type that can be decoded from a JSON value.
///
/// `key` is the key under which the value stands in its record; it is what a
/// failure names when the value itself does not have the expected shape.
pub trait Decode: Sized + DeepView {
    /// What decoding `j` gives.
    spec fn decoded(j: JsonView, key: Seq<char>, sources: SourcesView) -> Result<
        Self::V,
        TiledErrorView,
    >;

    /// Decodes `j`.
    fn decode(j: &Json, key: &str, sources: &Sources) -> (r: Result<Self, TiledError>)
        ensures
            outcome(r) == Self::decoded(j@, key@, sources@),
    ;
}

/// Whether `text` reads `word`.
pub fn reads(text: &String, word: &str) -> (b: bool)
    ensures
        b == (text@ == word@),
{
    *text == word.to_owned()
}

/// The integer between `low` and `high` that `j` is, if it is one.
pub open spec fn integer_of(j: JsonView, low: int, high: int) -> Option<int> {
    match j {
        JsonView::Number(n) => n.within(low, high),
        _ => None,
    }
}

impl Decode for u32 {
    open spec fn decoded(j: JsonView, key: Seq<char>, sources: SourcesView) -> Result<
        u32,
        TiledErrorView,
    > {
        match integer_of(j, 0, u32::MAX as int) {
            Some(n) => Ok(n as u32),
            None => malformed(key),
        }
    }

    fn decode(j: &Json, key: &str, sources: &Sources) -> (r: Result<u32, TiledError>) {
        match j {
            Json::Number(n) => match n.to_u32() {
                Some(v) => Ok(v),
                None => Err(TiledError::format(key)),
            },
            _ => Err(TiledError::format(key)),
        }
    }
}

impl Decode for i32 {
    open spec fn decoded(j: JsonView, key: Seq<char>, sources: SourcesView) -> Result<
        i32,
        TiledErrorView,
    > {
        match integer_of(j, i32::MIN as int, i32::MAX as int) {
            Some(n) => Ok(n as i32),
            None => malformed(key),
        }
    }

    fn decode(j: &Json, key: &str, sources: &Sources) -> (r: Result<i32, TiledError>) {
        match j {
            Json::Number(n) => match n.to_i32() {
                Some(v) => Ok(v),
                None => Err(TiledError::format(key)),
            },
            _ => Err(TiledError::format(key)),
        }
    }
}

impl Decode for u8 {
    open spec fn decoded(j: JsonView, key: Seq<char>, sources: SourcesView) -> Result<
        u8,
        TiledErrorView,
    > {
        match integer_of(j, 0, u8::MAX as int) {
            Some(n) => Ok(n as u8),
            None => malformed(key),
        }
    }

    fn decode(j: &Json, key: &str, sources: &Sources) -> (r: Result<u8, TiledError>) {
        match j {
            Json::Number(n) => match n.to_u8() {
                Some(v) => Ok(v),
                None => Err(TiledError::format(key)),
            },
            _ => Err(TiledError::format(key)),
        }
    }
}

impl Decode for i8 {
    open spec fn decoded(j: JsonView, key: Seq<char>, sources: SourcesView) -> Result<
        i8,
        TiledErrorView,
    > {
        match integer_of(j, i8::MIN as int, i8::MAX as int) {
            Some(n) => Ok(n as i8),
            None => malformed(key),
        }
    }

    fn decode(j: &Json, key: &str, sources: &Sources) -> (r: Result<i8, TiledError>) {
        match j {
            Json::Number(n) => match n.to_i8() {
                Some(v) => Ok(v),
                None => Err(TiledError::format(key)),
            },
            _ => Err(TiledError::format(key)),
        }
    }
}

/// Any number decodes to itself: this is how a real-valued field is read.
impl Decode for Number {
    open spec fn decoded(j: JsonView, key: Seq<char>, sources: SourcesView) -> Result<
        Number,
        TiledErrorView,
    > {
        match j {
            JsonView::Number(n) => Ok(n),
            _ => malformed(key),
        }
    }

    fn decode(j: &Json, key: &str, sources: &Sources) -> (r: Result<Number, TiledError>) {
        match j {
            Json::Number(n) => Ok(*n),
            _ => Err(TiledError::format(key)),
        }
    }
}

/// Any value decodes to a copy of itself.
impl Decode for Json {
    open spec fn decoded(j: JsonView, key: Seq<char>, sources: SourcesView) -> Result<
        JsonView,
        TiledErrorView,
    > {
        Ok(j)
    }

    fn decode(j: &Json, key: &str, sources: &Sources) -> (r: Result<Json, TiledError>) {
        Ok(j.clone())
    }
}

impl Decode for bool {
    open spec fn decoded(j: JsonView, key: Seq<char>, sources: SourcesView) -> Result<
        bool,
        TiledErrorView,
    > {
        match j {
            JsonView::Bool(b) => Ok(b),
            _ => malformed(key),
        }
    }

    fn decode(j: &Json, key: &str, sources: &Sources) -> (r: Result<bool, TiledError>) {
        match j {
            Json::Bool(b) => Ok(*b),
            _ => Err(TiledError::format(key)),
        }
    }
}

impl Decode for String {
    open spec fn decoded(j: JsonView, key: Seq<char>, sources: SourcesView) -> Result<
        Seq<char>,
        TiledErrorView,
    > {
        match j {
            JsonView::String(s) => Ok(s),
            _ => malformed(key),
        }
    }

    fn decode(j: &Json, key: &str, sources: &Sources) -> (r: Result<String, TiledError>) {
        match j {
            Json::String(s) => Ok(s.clone()),
            _ => Err(TiledError::format(key)),
        }
    }
}

/// What decoding each of `items` in turn gives: the values in order, or the
/// failure of the first item that fails.
pub open spec fn each_of<T: Decode>(items: Seq<JsonView>, key: Seq<char>, sources: SourcesView) -> Result<
    Seq<T::V>,
    TiledErrorView,
>
    decreases items.len(),
{
    if items.len() == 0 {
        Ok(Seq::empty())
    } else {
        match each_of::<T>(items.drop_last(), key, sources) {
            Err(e) => Err(e),
            Ok(front) => match T::decoded(items.last(), key, sources) {
                Err(e) => Err(e),
                Ok(value) => Ok(front.push(value)),
            },
        }
    }
}

impl<T: Decode> Decode for Vec<T> {
    open spec fn decoded(j: JsonView, key: Seq<char>, sources: SourcesView) -> Result<
        Seq<T::V>,
        TiledErrorView,
    > {
        match j {
            JsonView::Array(items) => each_of::<T>(items, key, sources),
            _ => malformed(key),
        }
    }

    fn decode(j: &Json, key: &str, sources: &Sources) -> (r: Result<Vec<T>, TiledError>) {
        match j {
            Json::Array(items) => {
                let mut out: Vec<T> = Vec::new();
                let mut i: usize = 0;
                assert(j@->Array_0.take(0) =~= Seq::<JsonView>::empty());
                assert(out.deep_view() =~= Seq::<T::V>::empty());
                while i < items.len()
                    invariant
                        i <= items.len(),
                        *j == Json::Array(*items),
                        each_of::<T>(j@->Array_0.take(i as int), key@, sources@) == Ok::<
                            Seq<T::V>,
                            TiledErrorView,
                        >(out.deep_view()),
                    decreases items.len() - i,
                {
                    let ghost all = j@->Array_0;
                    assert(all.take(i + 1).drop_last() =~= all.take(i as int));
                    assert(all.take(i + 1).last() == items[i as int]@);
                    let ghost before = out.deep_view();
                    match T::decode(&items[i], key, sources) {
                        Ok(value) => {
                            out.push(value);
                            assert(out.deep_view() =~= before.push(value.deep_view()));
                        },
                        Err(e) => {
                            proof {
                                lemma_each_of_fails::<T>(all, key@, sources@, i + 1);
                            }
                            return Err(e);
                        },
                    }
                    i += 1;
                }
                assert(j@->Array_0.take(i as int) =~= j@->Array_0);
                Ok(out)
            },
            _ => Err(TiledError::format(key)),
        }
    }
}

/// Once a front part of `items` fails, all of `items` fails in the same way.
pub proof fn lemma_each_of_fails<T: Decode>(
    items: Seq<JsonView>,
    key: Seq<char>,
    sources: SourcesView,
    n: int,
)
    requires
        0 <= n <= items.len(),
        each_of::<T>(items.take(n), key, sources) is Err,
    ensures
        each_of::<T>(items, key, sources) == each_of::<T>(items.take(n), key, sources),
    decreases items.len() - n,
{
    if n < items.len() {
        assert(items.take(n + 1).drop_last() =~= items.take(n));
        lemma_each_of_fails::<T>(items, key, sources, n + 1);
    } else {
        assert(items.take(n) =~= items);
    }
}

/// The values come out in the order of the items, one for one.
pub proof fn lemma_each_of_keeps_order<T: Decode>(
    items: Seq<JsonView>,
    key: Seq<char>,
    sources: SourcesView,
)
    requires
        each_of::<T>(items, key, sources) is Ok,
    ensures
        each_of::<T>(items, key, sources)->Ok_0.len() == items.len(),
        forall|i: int|
            0 <= i < items.len() ==> T::decoded(#[trigger] items[i], key, sources) == Ok::<
                T::V,
                TiledErrorView,
            >(each_of::<T>(items, key, sources)->Ok_0[i]),
    decreases items.len(),
{
    if items.len() > 0 {
        let front = items.drop_last();
        lemma_each_of_keeps_order::<T>(front, key, sources);
        assert forall|i: int| 0 <= i < items.len() implies T::decoded(
            #[trigger] items[i],
            key,
            sources,
        ) == Ok::<T::V, TiledErrorView>(each_of::<T>(items, key, sources)->Ok_0[i]) by {
            if i < front.len() {
                assert(front[i] == items[i]);
            }
        }
    }
}

/// What the field `key` of the record `j` decodes to, where the field must
/// be there.
pub open spec fn required_of<T: Decode>(j: JsonView, key: Seq<char>, sources: SourcesView) -> Result<
    T::V,
    TiledErrorView,
> {
    match j.member(key) {
        Some(value) => T::decoded(value, key, sources),
        None => malformed(key),
    }
}

/// What the field `key` of the record `j` decodes to, where a field that is
/// absent or `null` gives `None`.
pub open spec fn optional_of<T: Decode>(j: JsonView, key: Seq<char>, sources: SourcesView) -> Result<
    Option<T::V>,
    TiledErrorView,
> {
    match j.member_if_set(key) {
        Some(value) => match T::decoded(value, key, sources) {
            Ok(v) => Ok(Some(v)),
            Err(e) => Err(e),
        },
        None => Ok(None),
    }
}

/// What the field `key` of the record `j` decodes to, where an absent field
/// gives `default`.
pub open spec fn defaulted_of<T: Decode>(
    j: JsonView,
    key: Seq<char>,
    sources: SourcesView,
    default: T::V,
) -> Result<T::V, TiledErrorView> {
    match j.member(key) {
        Some(value) => T::decoded(value, key, sources),
        None => Ok(default),
    }
}

/// Decodes the field `key` of the record `j`; the field must be there.
pub fn required<T: Decode>(j: &Json, key: &str, sources: &Sources) -> (r: Result<T, TiledError>)
    ensures
        outcome(r) == required_of::<T>(j@, key@, sources@),
{
    match j.get(key) {
        Some(value) => T::decode(value, key, sources),
        None => Err(TiledError::format(key)),
    }
}

/// Decodes the field `key` of the record `j`; `None` where the field is
/// absent or `null`.
pub fn optional<T: Decode>(j: &Json, key: &str, sources: &Sources) -> (r: Result<
    Option<T>,
    TiledError,
>)
    ensures
        outcome(r) == optional_of::<T>(j@, key@, sources@),
{
    match j.get_if_set(key) {
        Some(value) => match T::decode(value, key, sources) {
            Ok(v) => Ok(Some(v)),
            Err(e) => Err(e),
        },
        None => Ok(None),
    }
}

/// Decodes the field `key` of the record `j`; `default` where the field is
/// absent.
pub fn defaulted<T: Decode>(j: &Json, key: &str, sources: &Sources, default: T) -> (r: Result<
    T,
    TiledError,
>)
    ensures
        outcome(r) == defaulted_of::<T>(j@, key@, sources@, default.deep_view()),
{
    match j.get(key) {
        Some(value) => T::decode(value, key, sources),
        None => Ok(default),
    }
}

impl<T: Decode> Decode for crate::Vec2<T> {
    /// Both `x` and `y` must be there.
    open spec fn decoded(j: JsonView, key: Seq<char>, sources: SourcesView) -> Result<
        crate::Vec2<T::V>,
        TiledErrorView,
    > {
        let x = required_of::<T>(j, "x"@, sources);
        let y = required_of::<T>(j, "y"@, sources);
        if !(j is Object) {
            malformed(key)
        } else if x is Err {
            Err(x->Err_0)
        } else if y is Err {
            Err(y->Err_0)
        } else {
            Ok(crate::Vec2 { x: x->Ok_0, y: y->Ok_0 })
        }
    }

    fn decode(j: &Json, key: &str, sources: &Sources) -> (r: Result<crate::Vec2<T>, TiledError>) {
        if !j.is_object() {
            return Err(TiledError::format(key));
        }
        let x = required::<T>(j, "x", sources)?;
        let y = required::<T>(j, "y", sources)?;
        Ok(crate::Vec2 { x, y })
    }
}

impl Decode for [i8; 4] {
    /// A list of exactly four small integers.
    open spec fn decoded(j: JsonView, key: Seq<char>, sources: SourcesView) -> Result<
        Seq<i8>,
        TiledErrorView,
    > {
        match Vec::<i8>::decoded(j, key, sources) {
            Err(e) => Err(e),
            Ok(items) => if items.len() == 4 {
                Ok(items)
            } else {
                malformed(key)
            },
        }
    }

    fn decode(j: &Json, key: &str, sources: &Sources) -> (r: Result<[i8; 4], TiledError>) {
        let items = Vec::<i8>::decode(j, key, sources)?;
        if items.len() == 4 {
            let four = [items[0], items[1], items[2], items[3]];
            assert(four.deep_view() =~= items.deep_view());
            Ok(four)
        } else {
            Err(TiledError::format(key))
        }
    }
}

} // verus!
