//! The row-mapping layer's schema rules: finding the table name and
//! the field list that a struct declares through its attributes.
//!
//! Attributes arrive here already broken into plain values — a path,
//! and `key = value` arguments — so the rules themselves are verified:
//! which attribute wins, which argument shapes are rejected, and what
//! makes a table name acceptable.

use vstd::prelude::*;
use vstd::string::StrSliceExecFns;
use vstd::string::StringExecFns;

use crate::strutil::join_chars;
use crate::strutil::join_strings;

verus! {

/// A literal in an attribute argument.
#[derive(Debug)]
pub enum LitValue {
    /// A string literal and its contents.
    Str(String),
    /// Any other expression or literal kind.
    Other,
}

/// One argument of an attribute.
#[derive(Debug)]
pub enum AttrMeta {
    /// A `key = value` argument.
    NameValue(String, LitValue),
    /// Any other argument shape.
    Other,
}

/// One attribute on the declaring struct: its path and its arguments.
#[derive(Debug)]
pub struct AttrEntry {
    pub path: String,
    pub args: Vec<AttrMeta>,
}

/// The fields a declaring type offers to the field-list rule.
#[derive(Debug)]
pub enum DataModel {
    /// A struct with named fields, in declaration order.
    NamedStruct(Vec<String>),
    /// A struct whose fields are unnamed.
    UnnamedStruct,
    /// Not a struct at all.
    NotStruct,
}

/// Why a schema rule rejected its input.
#[derive(Debug, Clone, Copy, PartialEq, Eq)]
pub enum SchemaError {
    /// The matching `key = value` argument holds no string literal.
    ExpectedStringLiteral,
    /// No `table(name = ...)` attribute was found.
    MissingTableName,
    /// The first table argument is not a `key = value` pair.
    NotNameValue,
    /// The first table argument's key is not `name`.
    NameKeyMismatch,
    /// No table attribute with any argument was found.
    NoTableAttribute,
    /// The table name is empty.
    EmptyName,
    /// The table name does not start with an alphabetic character.
    FirstCharNotAlphabetic,
    /// The table name contains whitespace.
    HasWhitespace,
    /// The table name has a character that is neither alphanumeric
    /// nor an underscore.
    InvalidCharacter,
    /// The declaring type is not a struct with named fields.
    NotAStruct,
}

/// Whether `char::is_alphabetic` holds of `c`.
pub uninterp spec fn char_alphabetic(c: char) -> bool;

/// Whether `char::is_alphanumeric` holds of `c`.
pub uninterp spec fn char_alphanumeric(c: char) -> bool;

/// Whether `char::is_whitespace` holds of `c`.
pub uninterp spec fn char_whitespace(c: char) -> bool;

/// Relies on char::is_alphabetic: a property of the character alone.
#[verifier::external_body]
fn is_alphabetic_char(c: char) -> (r: bool)
    ensures
        r == char_alphabetic(c),
{
    c.is_alphabetic()
}

/// Relies on char::is_alphanumeric: a property of the character alone.
#[verifier::external_body]
fn is_alphanumeric_char(c: char) -> (r: bool)
    ensures
        r == char_alphanumeric(c),
{
    c.is_alphanumeric()
}

/// Relies on char::is_whitespace: a property of the character alone.
#[verifier::external_body]
fn is_whitespace_char(c: char) -> (r: bool)
    ensures
        r == char_whitespace(c),
{
    c.is_whitespace()
}

/// The value of the first `key = value` argument under the given key.
pub open spec fn spec_args_find(args: Seq<AttrMeta>, key: Seq<char>) -> Option<LitValue>
    decreases args.len(),
{
    if args.len() == 0 {
        None
    } else {
        match args[0] {
            AttrMeta::NameValue(p, v) => if p@ == key {
                Some(v)
            } else {
                spec_args_find(args.drop_first(), key)
            },
            AttrMeta::Other => spec_args_find(args.drop_first(), key),
        }
    }
}

/// The value under `key` in the first attribute named `attr` that
/// carries it; later attributes of the same name are searched too.
pub open spec fn spec_attrs_find(attrs: Seq<AttrEntry>, attr: Seq<char>, key: Seq<char>) -> Option<
    LitValue,
>
    decreases attrs.len(),
{
    if attrs.len() == 0 {
        None
    } else {
        if attrs[0].path@ == attr {
            match spec_args_find(attrs[0].args@, key) {
                Some(v) => Some(v),
                None => spec_attrs_find(attrs.drop_first(), attr, key),
            }
        } else {
            spec_attrs_find(attrs.drop_first(), attr, key)
        }
    }
}

fn find_in_args<'a>(args: &'a Vec<AttrMeta>, key: &String, i: usize) -> (r: Option<&'a LitValue>)
    requires
        i <= args.len(),
    ensures
        match spec_args_find(args@.skip(i as int), key@) {
            Some(v) => r matches Some(rv) && *rv == v,
            None => r is None,
        },
    decreases args.len() - i,
{
    if i == args.len() {
        proof {
            assert(args@.skip(i as int) =~= Seq::<AttrMeta>::empty());
        }
        None
    } else {
        proof {
            assert(args@.skip(i as int).drop_first() =~= args@.skip(i as int + 1));
            assert(args@.skip(i as int)[0] == args@[i as int]);
        }
        match &args[i] {
            AttrMeta::NameValue(p, v) => {
                if p.eq(key) {
                    Some(v)
                } else {
                    find_in_args(args, key, i + 1)
                }
            },
            AttrMeta::Other => find_in_args(args, key, i + 1),
        }
    }
}

fn find_in_attrs<'a>(attrs: &'a Vec<AttrEntry>, attr: &String, key: &String, i: usize) -> (r:
    Option<&'a LitValue>)
    requires
        i <= attrs.len(),
    ensures
        match spec_attrs_find(attrs@.skip(i as int), attr@, key@) {
            Some(v) => r matches Some(rv) && *rv == v,
            None => r is None,
        },
    decreases attrs.len() - i,
{
    if i == attrs.len() {
        proof {
            assert(attrs@.skip(i as int) =~= Seq::<AttrEntry>::empty());
        }
        None
    } else {
        proof {
            assert(attrs@.skip(i as int).drop_first() =~= attrs@.skip(i as int + 1));
            assert(attrs@.skip(i as int)[0] == attrs@[i as int]);
        }
        if attrs[i].path.eq(attr) {
            match find_in_args(&attrs[i].args, key, 0) {
                Some(v) => {
                    proof {
                        assert(attrs@[i as int].args@.skip(0) =~= attrs@[i as int].args@);
                    }
                    Some(v)
                },
                None => {
                    proof {
                        assert(attrs@[i as int].args@.skip(0) =~= attrs@[i as int].args@);
                    }
                    find_in_attrs(attrs, attr, key, i + 1)
                },
            }
        } else {
            find_in_attrs(attrs, attr, key, i + 1)
        }
    }
}

/// Looks up `attr_ident(key_ident = "...")` over all attributes:
/// the contents of the string literal when one is found, nothing when
/// no attribute carries the key, and an error when the value under
/// the key is not a string literal.
pub fn get_attr_value(attrs: &Vec<AttrEntry>, attr_ident: &str, key_ident: &str) -> (r: Result<
    Option<String>,
    SchemaError,
>)
    ensures
        match spec_attrs_find(attrs@, attr_ident@, key_ident@) {
            None => r matches Ok(o) && o is None,
            Some(v) => match v {
                LitValue::Str(s) => r matches Ok(o) && o matches Some(t) && t@ == s@,
                LitValue::Other => r matches Err(e) && e == SchemaError::ExpectedStringLiteral,
            },
        },
{
    let attr_s = String::from_str(attr_ident);
    let key_s = String::from_str(key_ident);
    proof {
        assert(attrs@.skip(0) =~= attrs@);
    }
    match find_in_attrs(attrs, &attr_s, &key_s, 0) {
        None => Ok(None),
        Some(lv) => match lv {
            LitValue::Str(s) => Ok(Some(s.clone())),
            LitValue::Other => Err(SchemaError::ExpectedStringLiteral),
        },
    }
}

/// The table name that a `table(name = "...")` attribute declares;
/// missing attributes are an error of their own.
pub fn get_table_name(attrs: &Vec<AttrEntry>) -> (r: Result<String, SchemaError>)
    ensures
        match spec_attrs_find(attrs@, "table"@, "name"@) {
            None => r matches Err(e) && e == SchemaError::MissingTableName,
            Some(v) => match v {
                LitValue::Str(s) => r matches Ok(t) && t@ == s@,
                LitValue::Other => r matches Err(e) && e == SchemaError::ExpectedStringLiteral,
            },
        },
{
    match get_attr_value(attrs, "table", "name") {
        Ok(Some(n)) => Ok(n),
        Ok(None) => Err(SchemaError::MissingTableName),
        Err(e) => Err(e),
    }
}

/// The first argument of the first `table(...)` attribute that has
/// any arguments at all.
pub open spec fn spec_first_attr_meta(attrs: Seq<AttrEntry>, path: Seq<char>) -> Option<AttrMeta>
    decreases attrs.len(),
{
    if attrs.len() == 0 {
        None
    } else if attrs[0].path@ == path && attrs[0].args@.len() > 0 {
        Some(attrs[0].args@[0])
    } else {
        spec_first_attr_meta(attrs.drop_first(), path)
    }
}

/// What the table-name check answers for a given name: the name must
/// be non-empty, start alphabetic, hold no whitespace, and consist of
/// alphanumerics and underscores only; the first broken rule names
/// the error.
pub open spec fn spec_check_name(s: Seq<char>) -> Result<(), SchemaError> {
    if s.len() == 0 {
        Err(SchemaError::EmptyName)
    } else if !char_alphabetic(s[0]) {
        Err(SchemaError::FirstCharNotAlphabetic)
    } else if exists|i: int| 0 <= i < s.len() && char_whitespace(#[trigger] s[i]) {
        Err(SchemaError::HasWhitespace)
    } else if exists|i: int|
        0 <= i < s.len() && !(char_alphanumeric(#[trigger] s[i]) || s[i] == '_') {
        Err(SchemaError::InvalidCharacter)
    } else {
        Ok(())
    }
}

/// Checks a table name, exactly as `spec_check_name` states.
pub fn check_table_name(s: &str) -> (r: Result<(), SchemaError>)
    ensures
        r == spec_check_name(s@),
{
    let n = s.unicode_len();
    if n == 0 {
        return Err(SchemaError::EmptyName);
    }
    if !is_alphabetic_char(s.get_char(0)) {
        return Err(SchemaError::FirstCharNotAlphabetic);
    }
    let mut i: usize = 0;
    while i < n
        invariant
            0 <= i <= n,
            n == s@.len(),
            s@.len() > 0 && char_alphabetic(s@[0]),
            forall|k: int| 0 <= k < i ==> !char_whitespace(#[trigger] s@[k]),
        decreases n - i,
    {
        if is_whitespace_char(s.get_char(i)) {
            proof {
                assert(char_whitespace(s@[i as int]));
            }
            return Err(SchemaError::HasWhitespace);
        }
        i += 1;
    }
    let mut j: usize = 0;
    while j < n
        invariant
            0 <= j <= n,
            n == s@.len(),
            s@.len() > 0 && char_alphabetic(s@[0]),
            forall|k: int| 0 <= k < n ==> !char_whitespace(#[trigger] s@[k]),
            forall|k: int| 0 <= k < j ==> char_alphanumeric(#[trigger] s@[k]) || s@[k] == '_',
        decreases n - j,
    {
        let c = s.get_char(j);
        if !(is_alphanumeric_char(c) || c == '_') {
            proof {
                assert(!(char_alphanumeric(s@[j as int]) || s@[j as int] == '_'));
            }
            return Err(SchemaError::InvalidCharacter);
        }
        j += 1;
    }
    Ok(())
}

fn first_meta_from<'a>(attrs: &'a Vec<AttrEntry>, path: &String, i: usize) -> (r: Option<
    &'a AttrMeta,
>)
    requires
        i <= attrs.len(),
    ensures
        match spec_first_attr_meta(attrs@.skip(i as int), path@) {
            Some(m) => r matches Some(rm) && *rm == m,
            None => r is None,
        },
    decreases attrs.len() - i,
{
    if i == attrs.len() {
        proof {
            assert(attrs@.skip(i as int) =~= Seq::<AttrEntry>::empty());
        }
        None
    } else {
        proof {
            assert(attrs@.skip(i as int).drop_first() =~= attrs@.skip(i as int + 1));
            assert(attrs@.skip(i as int)[0] == attrs@[i as int]);
        }
        if attrs[i].path.eq(path) && attrs[i].args.len() > 0 {
            Some(&attrs[i].args[0])
        } else {
            first_meta_from(attrs, path, i + 1)
        }
    }
}

/// What the stricter table-name rule answers: the first argument of
/// the first populated `table(...)` attribute must be
/// `name = "..."` with a string literal, and the name itself must
/// pass `spec_check_name`.
pub open spec fn spec_strict_table_name(attrs: Seq<AttrEntry>) -> Result<Seq<char>, SchemaError> {
    match spec_first_attr_meta(attrs, "table"@) {
        None => Err(SchemaError::NoTableAttribute),
        Some(m) => match m {
            AttrMeta::Other => Err(SchemaError::NotNameValue),
            AttrMeta::NameValue(k, v) => if k@ != "name"@ {
                Err(SchemaError::NameKeyMismatch)
            } else {
                match v {
                    LitValue::Other => Err(SchemaError::ExpectedStringLiteral),
                    LitValue::Str(s) => match spec_check_name(s@) {
                        Err(e) => Err(e),
                        Ok(u) => Ok(s@),
                    },
                }
            },
        },
    }
}

/// The table name under the stricter rule, exactly as
/// `spec_strict_table_name` states.
pub fn get_strict_table_name(attrs: &Vec<AttrEntry>) -> (r: Result<String, SchemaError>)
    ensures
        match spec_strict_table_name(attrs@) {
            Ok(s) => r matches Ok(t) && t@ == s,
            Err(e) => r matches Err(re) && re == e,
        },
{
    let table_s = String::from_str("table");
    let name_s = String::from_str("name");
    proof {
        assert(attrs@.skip(0) =~= attrs@);
    }
    match first_meta_from(attrs, &table_s, 0) {
        None => Err(SchemaError::NoTableAttribute),
        Some(m) => match m {
            AttrMeta::Other => Err(SchemaError::NotNameValue),
            AttrMeta::NameValue(k, v) => {
                if !k.eq(&name_s) {
                    Err(SchemaError::NameKeyMismatch)
                } else {
                    match v {
                        LitValue::Other => Err(SchemaError::ExpectedStringLiteral),
                        LitValue::Str(s) => match check_table_name(s.as_str()) {
                            Err(e) => Err(e),
                            Ok(_) => Ok(s.clone()),
                        },
                    }
                }
            },
        },
    }
}

/// The comma-joined field list of a named struct; anything else is
/// rejected. A named struct hands in at least one field.
pub fn get_field_names(data: &DataModel) -> (r: Result<String, SchemaError>)
    requires
        data matches DataModel::NamedStruct(fs) ==> fs@.len() > 0,
    ensures
        match data {
            DataModel::NamedStruct(fs) => r matches Ok(s) && s@ == join_chars(
                fs@.map_values(|f: String| f@),
                ","@,
            ),
            _ => r matches Err(e) && e == SchemaError::NotAStruct,
        },
{
    match data {
        DataModel::NamedStruct(fs) => Ok(join_strings(fs, ",")),
        DataModel::UnnamedStruct => Err(SchemaError::NotAStruct),
        DataModel::NotStruct => Err(SchemaError::NotAStruct),
    }
}

/// The kind that a `surreal_value_json(kind = "...")` attribute
/// declares; anything else falls back to `Object`.
pub fn get_kind_or_default(attrs: &Vec<AttrEntry>) -> (r: String)
    ensures
        match spec_attrs_find(attrs@, "surreal_value_json"@, "kind"@) {
            Some(v) => match v {
                LitValue::Str(s) => r@ == s@,
                LitValue::Other => r@ == "Object"@,
            },
            None => r@ == "Object"@,
        },
{
    match get_attr_value(attrs, "surreal_value_json", "kind") {
        Ok(Some(n)) => n,
        Ok(None) => String::from_str("Object"),
        Err(_) => String::from_str("Object"),
    }
}

} // verus!
