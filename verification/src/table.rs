//! The free-form part of a note's metadata: a TOML table of string keys, held through the
//! `toml` crate and described here by what it holds.
use vstd::prelude::*;

verus! {

#[verifier::external_type_specification]
#[verifier::external_body]
pub struct ExTomlValue(toml::Value);

#[verifier::external_type_specification]
#[verifier::external_body]
#[verifier::reject_recursive_types(K)]
#[verifier::reject_recursive_types(V)]
pub struct ExTomlMap<K, V>(toml::map::Map<K, V>);

/// What a TOML table holds: its keys, each with its value.
pub uninterp spec fn table_entries(t: toml::map::Map<String, toml::Value>) -> Map<
    Seq<char>,
    toml::Value,
>;

/// Whether two TOML values compare equal under `toml::Value`'s `==`.
pub uninterp spec fn values_equal(a: toml::Value, b: toml::Value) -> bool;

/// The contents of an empty table.
pub open spec fn no_entries() -> Map<Seq<char>, toml::Value> {
    Map::empty()
}

/// Whether two tables compare equal under `==`: the same keys, with equal values.
pub open spec fn tables_equal(
    a: Map<Seq<char>, toml::Value>,
    b: Map<Seq<char>, toml::Value>,
) -> bool {
    &&& a.dom() == b.dom()
    &&& forall|k: Seq<char>| #[trigger] a.dom().contains(k) ==> values_equal(a[k], b[k])
}

/// Whether `a` comes strictly before `b` in the order of their characters' code points.
pub open spec fn text_less(a: Seq<char>, b: Seq<char>) -> bool
    decreases a.len(),
{
    if a.len() == 0 {
        b.len() > 0
    } else if b.len() == 0 {
        false
    } else if a[0] != b[0] {
        (a[0] as u32) < (b[0] as u32)
    } else {
        text_less(a.drop_first(), b.drop_first())
    }
}

/// The texts of a sequence of strings.
pub open spec fn texts(v: Seq<String>) -> Seq<Seq<char>> {
    v.map_values(|s: String| s@)
}

/// `toml::map::Map::new`: an empty table.
#[verifier::external_body]
pub(crate) fn table_new() -> (r: toml::map::Map<String, toml::Value>)
    ensures
        table_entries(r) == no_entries(),
{
    toml::map::Map::new()
}

/// `toml::map::Map::get`: the value stored under `key`, if any.
#[verifier::external_body]
pub(crate) fn table_get<'a>(t: &'a toml::map::Map<String, toml::Value>, key: &str) -> (r: Option<
    &'a toml::Value,
>)
    ensures
        r == (if table_entries(*t).dom().contains(key@) {
            Some(&table_entries(*t)[key@])
        } else {
            None
        }),
{
    t.get(key)
}

/// `toml::map::Map::insert`: stores `value` under `key`, replacing what was there. The value
/// that it replaced is dropped.
#[verifier::external_body]
pub(crate) fn table_insert(
    t: &mut toml::map::Map<String, toml::Value>,
    key: String,
    value: toml::Value,
)
    ensures
        table_entries(*final(t)) == table_entries(*old(t)).insert(key@, value),
{
    t.insert(key, value);
}

/// `toml::map::Map::remove`: takes out the entry of `key` and hands back its value, if there
/// was one.
#[verifier::external_body]
pub(crate) fn table_remove(t: &mut toml::map::Map<String, toml::Value>, key: &str) -> (r: Option<
    toml::Value,
>)
    ensures
        table_entries(*final(t)) == table_entries(*old(t)).remove(key@),
        r == (if table_entries(*old(t)).dom().contains(key@) {
            Some(table_entries(*old(t))[key@])
        } else {
            None
        }),
{
    t.remove(key)
}

/// `toml::map::Map::is_empty`: whether the table holds no entry.
#[verifier::external_body]
pub(crate) fn table_is_empty(t: &toml::map::Map<String, toml::Value>) -> (r: bool)
    ensures
        r == table_entries(*t).dom().is_empty(),
{
    t.is_empty()
}

/// `toml::map::Map::clear`: removes every entry.
#[verifier::external_body]
pub(crate) fn table_clear(t: &mut toml::map::Map<String, toml::Value>)
    ensures
        table_entries(*final(t)) == no_entries(),
{
    t.clear();
}

/// `toml::map::Map::keys`, collected: every key of the table once, in the ascending order in
/// which the table (a `BTreeMap` underneath) keeps them.
#[verifier::external_body]
pub(crate) fn table_keys(t: &toml::map::Map<String, toml::Value>) -> (r: Vec<String>)
    ensures
        forall|i: int| 0 <= i < r.len() ==> table_entries(*t).dom().contains(#[trigger] r@[i]@),
        forall|k: Seq<char>|
            #[trigger] table_entries(*t).dom().contains(k) ==> exists|i: int|
                0 <= i < r.len() && #[trigger] r@[i]@ == k,
        forall|i: int, j: int| 0 <= i < j < r.len() ==> text_less(#[trigger] r@[i]@, #[trigger] r@[j]@),
{
    t.keys().cloned().collect()
}

/// `==` on two TOML values.
#[verifier::external_body]
pub(crate) fn value_eq(a: &toml::Value, b: &toml::Value) -> (r: bool)
    ensures
        r == values_equal(*a, *b),
{
    a == b
}

/// `==` on two tables: it compares what they hold, key by key.
#[verifier::external_body]
pub(crate) fn table_eq(
    a: &toml::map::Map<String, toml::Value>,
    b: &toml::map::Map<String, toml::Value>,
) -> (r: bool)
    ensures
        r == tables_equal(table_entries(*a), table_entries(*b)),
{
    a == b
}

} // verus!
