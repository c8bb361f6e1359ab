//! The `#[pg_mapper(table = "...")]` annotation.
use vstd::prelude::*;
use crate::schema::GenError;

verus! {

/// One item inside `#[pg_mapper(...)]`.
pub enum MetaItem {
    /// `key = literal`, with the literal as its source text (quotes and escapes included).
    NameValue { key: String, literal: String },
    /// A bare path, such as `skip`.
    Path(String),
    /// A nested list, such as `rename(...)`, by its path.
    List(String),
    /// A bare literal, as its source text.
    Literal(String),
}

/// What follows the path of an attribute.
pub enum AttrArgs {
    /// `#[name]`
    Empty,
    /// `#[name(item, item, ...)]`
    List(Vec<MetaItem>),
    /// `#[name = value]`
    NameValue,
}

/// An attribute on a declaration: its path segments and its arguments.
pub struct AttrDecl {
    pub path: Vec<String>,
    pub args: AttrArgs,
}

/// The table name that the annotations supply, if any.
pub struct TableAttribute {
    pub table_name: Option<String>,
}

/// The value of a Rust string literal written as `token`, or `None` where `token`
/// is not a string literal.
pub uninterp spec fn lit_str_of(token: Seq<char>) -> Option<Seq<char>>;

/// Relies on `syn::parse_str::<syn::LitStr>` and `syn::LitStr::value`: the token
/// is parsed as a string literal and its escapes are decoded.
#[verifier::external_body]
fn parse_lit_str(token: &str) -> (r: Option<String>)
    ensures
        match r {
            Some(v) => lit_str_of(token@) == Some(v@),
            None => lit_str_of(token@) is None,
        },
{
    syn::parse_str::<syn::LitStr>(token).ok().map(|lit| lit.value())
}

/// Whether `s` holds exactly the characters of `lit`.
fn text_is(s: &String, lit: &str) -> (r: bool)
    ensures
        r == (s@ == lit@),
{
    let expected = String::from_str(lit);
    *s == expected
}

/// The characters of an optional string.
pub open spec fn opt_text(o: Option<String>) -> Option<Seq<char>> {
    match o {
        Some(s) => Some(s@),
        None => None,
    }
}

/// Whether an attribute is this generator's own `#[pg_mapper ...]`.
pub open spec fn is_mapper_attr(a: AttrDecl) -> bool {
    a.path@.len() == 1 && a.path@[0]@ == "pg_mapper"@
}

/// The table name after one item, given the name that earlier items set.
pub open spec fn apply_item(table: Option<Seq<char>>, item: MetaItem) -> Result<
    Option<Seq<char>>,
    GenError,
> {
    match item {
        MetaItem::NameValue { key, literal } => if key@ == "table"@ {
            match lit_str_of(literal@) {
                Some(v) => Ok(Some(v)),
                None => Err(GenError::InvalidAttributeValue),
            }
        } else {
            Err(GenError::UnknownAttributeKey(key))
        },
        MetaItem::Path(key) => Err(GenError::UnknownAttributeKey(key)),
        MetaItem::List(key) => Err(GenError::UnknownAttributeKey(key)),
        MetaItem::Literal(_) => Err(GenError::MalformedAttribute),
    }
}

/// The items of one annotation, read left to right: the first bad item fails,
/// and a later `table` overrides an earlier one.
pub open spec fn apply_items(table: Option<Seq<char>>, items: Seq<MetaItem>) -> Result<
    Option<Seq<char>>,
    GenError,
>
    decreases items.len(),
{
    if items.len() == 0 {
        Ok(table)
    } else {
        match apply_items(table, items.drop_last()) {
            Ok(t) => apply_item(t, items.last()),
            Err(e) => Err(e),
        }
    }
}

/// All attributes of a declaration, read in order; attributes of other tools are ignored.
pub open spec fn apply_attrs(table: Option<Seq<char>>, attrs: Seq<AttrDecl>) -> Result<
    Option<Seq<char>>,
    GenError,
>
    decreases attrs.len(),
{
    if attrs.len() == 0 {
        Ok(table)
    } else {
        match apply_attrs(table, attrs.drop_last()) {
            Ok(t) => {
                let a = attrs.last();
                if !is_mapper_attr(a) {
                    Ok(t)
                } else {
                    match a.args {
                        AttrArgs::List(items) => apply_items(t, items@),
                        _ => Err(GenError::MalformedAttribute),
                    }
                }
            },
            Err(e) => Err(e),
        }
    }
}

/// The table name that a declaration's attributes supply, or the first error in them.
pub open spec fn table_of(attrs: Seq<AttrDecl>) -> Result<Option<Seq<char>>, GenError> {
    apply_attrs(None, attrs)
}

/// The items of `attr` when it is a `#[pg_mapper(...)]` list; `None` for other attributes.
pub fn get_mapper_meta_items(attr: &AttrDecl) -> (r: Result<Option<&Vec<MetaItem>>, GenError>)
    ensures
        !is_mapper_attr(*attr) ==> r == Ok::<Option<&Vec<MetaItem>>, GenError>(None),
        is_mapper_attr(*attr) ==> match attr.args {
            AttrArgs::List(items) => r matches Ok(Some(v)) && *v == items,
            _ => r == Err::<Option<&Vec<MetaItem>>, GenError>(GenError::MalformedAttribute),
        },
{
    if attr.path.len() == 1 && text_is(&attr.path[0], "pg_mapper") {
        match &attr.args {
            AttrArgs::List(items) => Ok(Some(items)),
            _ => Err(GenError::MalformedAttribute),
        }
    } else {
        Ok(None)
    }
}

/// The value of a string literal given as source text.
pub fn get_lit_str(literal: &String) -> (r: Result<String, GenError>)
    ensures
        match lit_str_of(literal@) {
            Some(v) => r matches Ok(s) && s@ == v,
            None => r == Err::<String, GenError>(GenError::InvalidAttributeValue),
        },
{
    match parse_lit_str(literal.as_str()) {
        Some(v) => Ok(v),
        None => Err(GenError::InvalidAttributeValue),
    }
}

proof fn lemma_items_error_persists(t: Option<Seq<char>>, items: Seq<MetaItem>, k: int)
    requires
        0 <= k <= items.len(),
        apply_items(t, items.subrange(0, k)) is Err,
    ensures
        apply_items(t, items) == apply_items(t, items.subrange(0, k)),
    decreases items.len() - k,
{
    if k == items.len() {
        assert(items.subrange(0, k) =~= items);
    } else {
        assert(items.drop_last().subrange(0, k) =~= items.subrange(0, k));
        lemma_items_error_persists(t, items.drop_last(), k);
    }
}

proof fn lemma_attrs_error_persists(t: Option<Seq<char>>, attrs: Seq<AttrDecl>, k: int)
    requires
        0 <= k <= attrs.len(),
        apply_attrs(t, attrs.subrange(0, k)) is Err,
    ensures
        apply_attrs(t, attrs) == apply_attrs(t, attrs.subrange(0, k)),
    decreases attrs.len() - k,
{
    if k == attrs.len() {
        assert(attrs.subrange(0, k) =~= attrs);
    } else {
        assert(attrs.drop_last().subrange(0, k) =~= attrs.subrange(0, k));
        lemma_attrs_error_persists(t, attrs.drop_last(), k);
    }
}

/// Reads `#[pg_mapper(table = "...")]` from a declaration's attributes.
///
/// An absent annotation is no error: the table name is then `None`.
pub fn parse_table_attr(attrs: &Vec<AttrDecl>) -> (r: Result<TableAttribute, GenError>)
    ensures
        match (r, table_of(attrs@)) {
            (Ok(t), Ok(Some(name))) => t.table_name matches Some(n) && n@ == name,
            (Ok(t), Ok(None)) => t.table_name is None,
            (Err(e), Err(e2)) => e == e2,
            _ => false,
        },
{
    let mut table_name: Option<String> = None;
    let mut i: usize = 0;
    while i < attrs.len()
        invariant
            i <= attrs.len(),
            apply_attrs(None, attrs@.subrange(0, i as int)) == Ok::<Option<Seq<char>>, GenError>(opt_text(table_name)),
        decreases attrs.len() - i,
    {
        proof {
            assert(attrs@.subrange(0, i + 1).drop_last() =~= attrs@.subrange(0, i as int));
        }
        let ghost before = opt_text(table_name);
        let items = match get_mapper_meta_items(&attrs[i]) {
            Ok(Some(items)) => items,
            Ok(None) => {
                i = i + 1;
                continue;
            },
            Err(e) => {
                proof {
                    lemma_attrs_error_persists(None, attrs@, i + 1);
                }
                return Err(e);
            },
        };
        let mut j: usize = 0;
        while j < items.len()
            invariant
                j <= items.len(),
                i < attrs.len(),
                is_mapper_attr(attrs@[i as int]),
                attrs@[i as int].args matches AttrArgs::List(l) && l@ == items@,
                apply_attrs(None, attrs@.subrange(0, i as int)) == Ok::<
                    Option<Seq<char>>,
                    GenError,
                >(before),
                apply_items(before, items@.subrange(0, j as int)) == Ok::<Option<Seq<char>>, GenError>(opt_text(table_name)),
            decreases items.len() - j,
        {
            proof {
                assert(items@.subrange(0, j + 1).drop_last() =~= items@.subrange(0, j as int));
            }
            proof {
                if apply_items(before, items@.subrange(0, j + 1)) is Err {
                    lemma_items_error_persists(before, items@, j + 1);
                    assert(attrs@.subrange(0, i + 1).drop_last() =~= attrs@.subrange(0, i as int));
                    lemma_attrs_error_persists(None, attrs@, i + 1);
                }
            }
            match &items[j] {
                MetaItem::NameValue { key, literal } => {
                    if text_is(key, "table") {
                        match get_lit_str(literal) {
                            Ok(v) => {
                                table_name = Some(v);
                            },
                            Err(e) => {
                                return Err(e);
                            },
                        }
                    } else {
                        return Err(GenError::UnknownAttributeKey(key.clone()));
                    }
                },
                MetaItem::Path(key) => {
                    return Err(GenError::UnknownAttributeKey(key.clone()));
                },
                MetaItem::List(key) => {
                    return Err(GenError::UnknownAttributeKey(key.clone()));
                },
                MetaItem::Literal(_) => {
                    return Err(GenError::MalformedAttribute);
                },
            }
            j = j + 1;
        }
        proof {
            assert(items@.subrange(0, j as int) =~= items@);
        }
        i = i + 1;
    }
    proof {
        assert(attrs@.subrange(0, i as int) =~= attrs@);
    }
    Ok(TableAttribute { table_name })
}

} // verus!
