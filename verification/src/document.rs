//! The configuration file as a TOML document that is edited in place.
//!
//! The document itself is kept by `toml_edit`. This module names what a
//! document holds and edits it key by key.

use crate::cli::ConfigSetArgs;
use crate::error::NotifallError;
use crate::text::{
    chars_of, eq_fold, eq_ignore_ascii_case, find_char, index_of, integer_of, parse_integer,
    string_of, sub_chars,
};
use toml_edit::{DocumentMut, TomlError};
use vstd::prelude::*;

verus! {

/// `toml_edit::DocumentMut`: a TOML document that keeps its layout.
#[verifier::external_type_specification]
#[verifier::external_body]
pub struct ExDocumentMut(DocumentMut);

/// `toml_edit::TomlError`: why a text is no TOML document.
#[verifier::external_type_specification]
#[verifier::external_body]
pub struct ExTomlError(TomlError);

/// A value that can be written into the configuration.
#[derive(Debug, Clone, PartialEq)]
pub enum ConfigValue {
    Bool(bool),
    Integer(i64),
    Text(String),
}

/// A [`ConfigValue`] with its text as a sequence.
pub ghost enum ConfigValueView {
    Bool(bool),
    Integer(i64),
    Text(Seq<char>),
}

impl View for ConfigValue {
    type V = ConfigValueView;

    open spec fn view(&self) -> ConfigValueView {
        match self {
            ConfigValue::Bool(b) => ConfigValueView::Bool(*b),
            ConfigValue::Integer(i) => ConfigValueView::Integer(*i),
            ConfigValue::Text(t) => ConfigValueView::Text(t@),
        }
    }
}

/// The paths at which `doc` holds an item: the sequences of keys that lead
/// from the root to an item when each key in turn is looked up with
/// `Item::get`. The empty path leads to the root.
pub uninterp spec fn doc_items(doc: DocumentMut) -> Set<Seq<Seq<char>>>;

/// The paths at which `doc` holds a table: the sequences of keys that lead
/// from the root table to a table when each key in turn is looked up with
/// `Table::get` and the item found is a table (`Item::as_table`).
pub uninterp spec fn doc_tables(doc: DocumentMut) -> Set<Seq<Seq<char>>>;

/// The strings, integers and booleans that `doc` holds, each under the
/// path that leads to it as in [`doc_items`].
pub uninterp spec fn doc_values(doc: DocumentMut) -> Map<Seq<Seq<char>>, ConfigValueView>;

/// The arrays of strings that `doc` holds, each under the path that leads
/// to it as in [`doc_items`]: what `Item::as_array` gives there, where
/// every element is a string (`Value::as_str`).
pub uninterp spec fn doc_lists(doc: DocumentMut) -> Map<Seq<Seq<char>>, Seq<Seq<char>>>;

/// The document as text: what `DocumentMut::to_string` gives.
pub uninterp spec fn doc_text(doc: DocumentMut) -> Seq<char>;

/// Whether `text` is a TOML document: whether `str::parse::<DocumentMut>`
/// takes it.
pub uninterp spec fn toml_parses(text: Seq<char>) -> bool;

/// The paths at which the document that `text` parses to holds an item:
/// [`doc_items`] of what `str::parse::<DocumentMut>` makes of `text`.
pub uninterp spec fn text_items(text: Seq<char>) -> Set<Seq<Seq<char>>>;

/// The paths at which the document that `text` parses to holds a table:
/// [`doc_tables`] of what `str::parse::<DocumentMut>` makes of `text`.
pub uninterp spec fn text_tables(text: Seq<char>) -> Set<Seq<Seq<char>>>;

/// The strings, integers and booleans of the document that `text` parses
/// to: [`doc_values`] of what `str::parse::<DocumentMut>` makes of `text`.
pub uninterp spec fn text_values(text: Seq<char>) -> Map<Seq<Seq<char>>, ConfigValueView>;

/// Whether `doc` holds what the text `text` says: the items, tables and
/// values of the document that the text parses to.
pub open spec fn holds_text(doc: DocumentMut, text: Seq<char>) -> bool {
    &&& doc_items(doc) == text_items(text)
    &&& doc_tables(doc) == text_tables(text)
    &&& doc_values(doc) == text_values(text)
}

/// Whether `before` and `after` hold the same at `path`: the same item or
/// none, a table in both or in neither, and the same value or none.
pub open spec fn same_at(before: DocumentMut, after: DocumentMut, path: Seq<Seq<char>>) -> bool {
    &&& doc_items(after).contains(path) == doc_items(before).contains(path)
    &&& doc_tables(after).contains(path) == doc_tables(before).contains(path)
    &&& doc_values(after).contains_key(path) == doc_values(before).contains_key(path)
    &&& doc_values(after).contains_key(path) ==> doc_values(after)[path] == doc_values(
        before,
    )[path]
}

/// Whether `before` and `after` hold the same at every path that does not
/// lead through `path`.
pub open spec fn same_outside(before: DocumentMut, after: DocumentMut, path: Seq<Seq<char>>) -> bool {
    forall|other: Seq<Seq<char>>|
        !path.is_prefix_of(other) ==> #[trigger] same_at(before, after, other)
}

/// A change below `inner` that follows a change below `outer`, where
/// `inner` lies at or below `outer`, leaves everything outside `outer` as
/// it was.
pub proof fn lemma_same_outside_then(
    first: DocumentMut,
    second: DocumentMut,
    third: DocumentMut,
    outer: Seq<Seq<char>>,
    inner: Seq<Seq<char>>,
)
    requires
        same_outside(first, second, outer),
        same_outside(second, third, inner),
        outer.is_prefix_of(inner),
    ensures
        same_outside(first, third, outer),
{
    assert forall|other: Seq<Seq<char>>| !outer.is_prefix_of(other) implies #[trigger] same_at(
        first,
        third,
        other,
    ) by {
        if inner.is_prefix_of(other) {
            assert(outer =~= other.subrange(0, outer.len() as int)) by {
                assert(outer =~= inner.subrange(0, outer.len() as int));
                assert(inner =~= other.subrange(0, inner.len() as int));
            }
        }
        assert(same_at(first, second, other));
        assert(same_at(second, third, other));
    }
}

/// Whether every proper prefix of `path` is a table of `doc`.
pub open spec fn parents_are_tables(doc: DocumentMut, path: Seq<Seq<char>>) -> bool {
    forall|n: int| 0 <= n < path.len() ==> doc_tables(doc).contains(#[trigger] path.take(n))
}

/// `str::parse::<DocumentMut>`: reads a TOML document. What the document
/// holds depends on the text alone.
#[verifier::external_body]
pub(crate) fn parse_toml(text: &str) -> (r: Result<DocumentMut, TomlError>)
    ensures
        r is Ok <==> toml_parses(text@),
        r is Ok ==> doc_items(r->Ok_0) == text_items(text@),
        r is Ok ==> doc_tables(r->Ok_0) == text_tables(text@),
        r is Ok ==> doc_values(r->Ok_0) == text_values(text@),
{
    text.parse::<DocumentMut>()
}

/// `DocumentMut::to_string`: the document as text.
#[verifier::external_body]
pub(crate) fn toml_text(doc: &DocumentMut) -> (r: String)
    ensures
        r@ == doc_text(*doc),
{
    doc.to_string()
}

/// `TomlError::to_string`: the error as text.
#[verifier::external_body]
pub(crate) fn toml_error_text(error: &TomlError) -> (r: String) {
    error.to_string()
}

/// Looks `path` up from the root with `Item::get`, key by key, and says
/// whether an item was reached.
#[verifier::external_body]
pub(crate) fn has_item(doc: &DocumentMut, path: &[String]) -> (r: bool)
    ensures
        r == doc_items(*doc).contains(path.deep_view()),
{
    path.iter().try_fold(doc.as_item(), |item, key| item.get(key.as_str())).is_some()
}

/// Walks `path` from the root table with `Table::get` and `Item::as_table`,
/// key by key, and says whether every step found a table. The root of a
/// document is a table.
#[verifier::external_body]
pub(crate) fn is_table(doc: &DocumentMut, path: &[String]) -> (r: bool)
    ensures
        r == doc_tables(*doc).contains(path.deep_view()),
        path@.len() == 0 ==> r,
{
    path.iter().try_fold(doc.as_table(), |table, key| table.get(key.as_str())?.as_table()).is_some()
}

/// Looks `path` up as [`has_item`] does and casts the item found with
/// `Item::as_str`, `Item::as_integer` and `Item::as_bool`. Where a value
/// is found, every step of the way found an item.
#[verifier::external_body]
pub(crate) fn read_value(doc: &DocumentMut, path: &[String]) -> (r: Option<ConfigValue>)
    ensures
        match r {
            Some(v) => doc_values(*doc).contains_key(path.deep_view()) && doc_values(
                *doc,
            )[path.deep_view()] == v@,
            None => !doc_values(*doc).contains_key(path.deep_view()),
        },
        r is Some ==> forall|n: int|
            0 <= n <= path@.len() ==> doc_items(*doc).contains(#[trigger] path.deep_view().take(n)),
{
    let item = path.iter().try_fold(doc.as_item(), |item, key| item.get(key.as_str()))?;
    if let Some(text) = item.as_str() {
        return Some(ConfigValue::Text(text.to_string()));
    }
    if let Some(number) = item.as_integer() {
        return Some(ConfigValue::Integer(number));
    }
    item.as_bool().map(ConfigValue::Bool)
}

/// Walks to the parent of `path` through tables and assigns a new, empty
/// table under the last key (`IndexMut` of `Table`). Where the parents of
/// `path` are tables, `path` is a table afterwards and its parents still
/// are. Where the walk does not find a table, nothing is done. Nothing
/// changes but at `path` and below it.
#[verifier::external_body]
pub(crate) fn put_table(doc: &mut DocumentMut, path: &[String])
    ensures
        path@.len() > 0 && parents_are_tables(*old(doc), path.deep_view()) ==> doc_tables(
            *final(doc),
        ).contains(path.deep_view()) && parents_are_tables(*final(doc), path.deep_view()),
        same_outside(*old(doc), *final(doc), path.deep_view()),
{
    if let Some((last, parents)) = path.split_last() {
        let parent = parents.iter().try_fold(
            doc.as_table_mut(),
            |table, key| table.get_mut(key.as_str())?.as_table_mut(),
        );
        if let Some(table) = parent {
            table[last.as_str()] = toml_edit::table();
        }
    }
}

/// Walks to the parent of `path` through tables and assigns `value` under
/// the last key (`IndexMut` of `Table`). Where the parents of `path` are
/// tables, the document holds `value` at `path` afterwards. Where the walk
/// does not find a table, nothing is done. Nothing changes but at `path`
/// and below it.
#[verifier::external_body]
pub(crate) fn put_value(doc: &mut DocumentMut, path: &[String], value: &ConfigValue)
    ensures
        path@.len() > 0 && parents_are_tables(*old(doc), path.deep_view()) ==> doc_values(
            *final(doc),
        ).contains_key(path.deep_view()) && doc_values(*final(doc))[path.deep_view()] == value@,
        same_outside(*old(doc), *final(doc), path.deep_view()),
{
    if let Some((last, parents)) = path.split_last() {
        let parent = parents.iter().try_fold(
            doc.as_table_mut(),
            |table, key| table.get_mut(key.as_str())?.as_table_mut(),
        );
        if let Some(table) = parent {
            table[last.as_str()] = match value {
                ConfigValue::Bool(b) => toml_edit::value(*b),
                ConfigValue::Integer(i) => toml_edit::value(*i),
                ConfigValue::Text(t) => toml_edit::value(t.as_str()),
            };
        }
    }
}

/// Assigns an array of the strings `items` under `key` in the root table
/// (`Array::push`, then `IndexMut` of `DocumentMut`). Afterwards the
/// document holds that array under `key`. Nothing changes but at `key`
/// and below it.
#[verifier::external_body]
pub(crate) fn put_text_list(doc: &mut DocumentMut, key: &str, items: &[String])
    ensures
        doc_lists(*final(doc)).contains_key(seq![key@]),
        doc_lists(*final(doc))[seq![key@]] == items.deep_view(),
        same_outside(*old(doc), *final(doc), seq![key@]),
{
    let mut array = toml_edit::Array::default();
    for item in items {
        array.push(item.as_str());
    }
    doc[key] = toml_edit::value(array);
}

/// `Table::remove` on the root table: takes the item under `key` out, so
/// that the document holds nothing under `key` afterwards. Nothing else
/// changes.
#[verifier::external_body]
pub(crate) fn remove_key(doc: &mut DocumentMut, key: &str)
    ensures
        !doc_items(*final(doc)).contains(seq![key@]),
        same_outside(*old(doc), *final(doc), seq![key@]),
{
    doc.remove(key);
}

/// Reads a TOML document. A text that is none is a configuration error.
pub fn parse_document(text: &str) -> (r: Result<DocumentMut, NotifallError>)
    ensures
        r is Ok <==> toml_parses(text@),
        r is Ok ==> holds_text(r->Ok_0, text@),
        r is Err ==> r->Err_0 is ConfigEdit,
{
    match parse_toml(text) {
        Ok(doc) => Ok(doc),
        Err(e) => Err(NotifallError::ConfigEdit(toml_error_text(&e))),
    }
}

/// The document as text.
pub fn document_text(doc: &DocumentMut) -> (r: String)
    ensures
        r@ == doc_text(*doc),
{
    toml_text(doc)
}

/// The value that the text `raw` stands for: `true` and `false`, in any
/// case, are booleans; what reads as an integer is one; anything else is
/// text.
pub open spec fn config_value_of(raw: Seq<char>) -> ConfigValueView {
    if eq_fold(raw, "true"@) {
        ConfigValueView::Bool(true)
    } else if eq_fold(raw, "false"@) {
        ConfigValueView::Bool(false)
    } else {
        match integer_of(raw) {
            Some(i) => ConfigValueView::Integer(i),
            None => ConfigValueView::Text(raw),
        }
    }
}

/// Reads a value as it is given on the command line.
pub fn parse_config_value(raw: &str) -> (r: ConfigValue)
    ensures
        r@ == config_value_of(raw@),
{
    let cs = chars_of(raw);
    if eq_ignore_ascii_case(cs.as_slice(), chars_of("true").as_slice()) {
        return ConfigValue::Bool(true);
    }
    if eq_ignore_ascii_case(cs.as_slice(), chars_of("false").as_slice()) {
        return ConfigValue::Bool(false);
    }
    match parse_integer(cs.as_slice()) {
        Some(i) => ConfigValue::Integer(i),
        None => ConfigValue::Text(raw.to_owned()),
    }
}

/// The path that a dotted key names: its parts between the dots.
pub open spec fn key_path(key: Seq<char>) -> Seq<Seq<char>>
    decreases key.len(),
{
    let dot = index_of(key, '.');
    if 0 <= dot < key.len() {
        seq![key.take(dot)] + key_path(key.skip(dot + 1))
    } else {
        seq![key]
    }
}

/// Splits a dotted key into its parts.
pub fn split_key(key: &str) -> (r: Vec<String>)
    ensures
        r.deep_view() == key_path(key@),
        r@.len() > 0,
{
    let cs = chars_of(key);
    let mut parts: Vec<String> = Vec::new();
    let mut start: usize = 0;
    assert(cs@.skip(0) =~= cs@);
    assert(parts.deep_view() =~= Seq::<Seq<char>>::empty());
    loop
        invariant_except_break
            parts.deep_view() + key_path(cs@.skip(start as int)) == key_path(key@),
        invariant
            start <= cs@.len(),
            cs@ == key@,
        ensures
            parts.deep_view() == key_path(key@),
            parts@.len() > 0,
        decreases cs@.len() - start,
    {
        let rest = sub_chars(cs.as_slice(), start, cs.len());
        assert(rest@ =~= cs@.skip(start as int));
        let dot = find_char(rest.as_slice(), '.');
        let part = sub_chars(rest.as_slice(), 0, dot);
        assert(part@ =~= rest@.take(dot as int));
        let ghost before = parts.deep_view();
        parts.push(string_of(part.as_slice()));
        assert(parts.deep_view() =~= before.push(part@));
        if dot >= rest.len() {
            assert(rest@.take(dot as int) =~= rest@);
            assert(before.push(part@) =~= before + seq![rest@]);
            break ;
        }
        proof {
            assert(rest@.skip(dot + 1) =~= cs@.skip(start + dot + 1));
            assert(before.push(part@) + key_path(rest@.skip(dot + 1)) =~= before + (seq![part@]
                + key_path(rest@.skip(dot + 1))));
        }
        start = start + dot + 1;
    }
    parts
}

/// The first `n` keys of `path`.
fn prefix_of(path: &Vec<String>, n: usize) -> (r: Vec<String>)
    requires
        n <= path@.len(),
    ensures
        r.deep_view() == path.deep_view().take(n as int),
{
    let mut out: Vec<String> = Vec::new();
    let mut i: usize = 0;
    while i < n
        invariant
            i <= n <= path@.len(),
            out.deep_view() == path.deep_view().take(i as int),
        decreases n - i,
    {
        let ghost before = out.deep_view();
        out.push(path[i].clone());
        assert(out.deep_view() =~= before.push(path@[i as int]@));
        assert(path.deep_view().take(i + 1) =~= path.deep_view().take(i as int).push(
            path@[i as int]@,
        ));
        i += 1;
    }
    out
}

/// Whether `after` is `before` with `value` set at `path`: `after` holds
/// the value there; nothing has changed but under the first key of the
/// path; and where every table on the way was there, nothing has changed
/// but at the path itself.
pub open spec fn key_set(
    before: DocumentMut,
    after: DocumentMut,
    path: Seq<Seq<char>>,
    value: ConfigValueView,
) -> bool {
    &&& doc_values(after).contains_key(path)
    &&& doc_values(after)[path] == value
    &&& same_outside(before, after, path.take(1))
    &&& parents_are_tables(before, path) ==> same_outside(before, after, path)
}

/// Sets the dotted key `key` to `value`. Every part of the key but the
/// last names a table; one that is missing, or is no table, is replaced by
/// an empty table. Afterwards the document holds `value` under the path
/// of `key`. Nothing changes but under the first part of the key, and
/// where the tables on the way were there, nothing but the key itself.
pub fn set_toml_key(doc: &mut DocumentMut, key: &str, value: ConfigValue) -> (r: Result<
    (),
    NotifallError,
>)
    ensures
        r is Ok,
        key_set(*old(doc), *final(doc), key_path(key@), value@),
{
    let parts = split_key(key);
    let ghost path = parts.deep_view();
    let root: Vec<String> = Vec::new();
    let root_is_table = is_table(doc, root.as_slice());
    assert(root_is_table);
    assert(root.deep_view() =~= path.take(0));
    let mut depth: usize = 1;
    while depth < parts.len()
        invariant
            1 <= depth <= parts@.len(),
            path == parts.deep_view(),
            forall|n: int| 0 <= n < depth ==> doc_tables(*doc).contains(#[trigger] path.take(n)),
            same_outside(*old(doc), *doc, path.take(1)),
            parents_are_tables(*old(doc), path) ==> *doc == *old(doc),
        decreases parts.len() - depth,
    {
        let prefix = prefix_of(&parts, depth);
        let ghost p = prefix.deep_view();
        let ghost before = *doc;
        proof {
            assert forall|n: int| 0 <= n < p.len() implies doc_tables(*doc).contains(
                #[trigger] p.take(n),
            ) by {
                assert(p.take(n) =~= path.take(n));
            }
        }
        if !is_table(doc, prefix.as_slice()) {
            put_table(doc, prefix.as_slice());
            proof {
                assert(path.take(1) =~= p.subrange(0, 1));
                lemma_same_outside_then(*old(doc), before, *doc, path.take(1), p);
                assert forall|n: int| 0 <= n < depth implies doc_tables(*doc).contains(
                    #[trigger] path.take(n),
                ) by {
                    assert(p.take(n) =~= path.take(n));
                }
            }
        }
        depth += 1;
    }
    assert(parents_are_tables(*doc, path));
    let ghost before = *doc;
    put_value(doc, parts.as_slice(), &value);
    proof {
        assert(path.take(1) =~= path.subrange(0, 1));
        lemma_same_outside_then(*old(doc), before, *doc, path.take(1), path);
    }
    Ok(())
}

/// Whether `text` is the text `existing` with `value` set at `path`: the
/// document that `existing` parses to, with the value set, is written
/// out as `text`.
pub open spec fn text_with_value(
    existing: Seq<char>,
    text: Seq<char>,
    path: Seq<Seq<char>>,
    value: ConfigValueView,
) -> bool {
    exists|before: DocumentMut, after: DocumentMut| #[trigger]
        key_set(before, after, path, value) && holds_text(before, existing) && doc_text(after)
            == text
}

/// The update of a configuration file that `config set` asks for: the
/// text of the file with the value set under the key. A file that is no
/// TOML is an error.
pub fn handle_config_set(existing: &str, args: &ConfigSetArgs) -> (r: Result<String, NotifallError>)
    ensures
        r is Ok <==> toml_parses(existing@),
        r is Err ==> r->Err_0 is ConfigEdit,
        r is Ok ==> text_with_value(
            existing@,
            r->Ok_0@,
            key_path(args.key@),
            config_value_of(args.value@),
        ),
{
    let mut doc = match parse_document(existing) {
        Ok(d) => d,
        Err(e) => {
            return Err(e);
        },
    };
    let ghost before = doc;
    let value = parse_config_value(args.value.as_str());
    match set_toml_key(&mut doc, args.key.as_str(), value) {
        Ok(()) => {
            assert(key_set(before, doc, key_path(args.key@), config_value_of(args.value@)));
            Ok(document_text(&doc))
        },
        Err(e) => Err(e),
    }
}

/// The command that Codex is to call for its notifications: this
/// program, `hook`, `codex`.
pub fn codex_notify_command(exe: &str) -> (r: Vec<String>)
    ensures
        r.deep_view() == seq![exe@, "hook"@, "codex"@],
{
    let mut command: Vec<String> = Vec::new();
    command.push(exe.to_owned());
    command.push("hook".to_owned());
    command.push("codex".to_owned());
    assert(command.deep_view() =~= seq![exe@, "hook"@, "codex"@]);
    command
}

/// Whether `after` is `before` with the list `items` at `path`, and
/// nothing else changed.
pub open spec fn list_set(
    before: DocumentMut,
    after: DocumentMut,
    path: Seq<Seq<char>>,
    items: Seq<Seq<char>>,
) -> bool {
    &&& doc_lists(after).contains_key(path)
    &&& doc_lists(after)[path] == items
    &&& same_outside(before, after, path)
}

/// Whether `text` is the text `existing` with the list `items` set at
/// `path`: the document that `existing` parses to, with the list set, is
/// written out as `text`.
pub open spec fn text_with_list(
    existing: Seq<char>,
    text: Seq<char>,
    path: Seq<Seq<char>>,
    items: Seq<Seq<char>>,
) -> bool {
    exists|before: DocumentMut, after: DocumentMut| #[trigger]
        list_set(before, after, path, items) && holds_text(before, existing) && doc_text(after)
            == text
}

/// The configuration of Codex with this program as its notifier: the
/// text `existing` with `notify` set to the notify command. A file that
/// is no TOML is an error.
pub fn install_codex(existing: &str, exe: &str) -> (r: Result<String, NotifallError>)
    ensures
        r is Ok <==> toml_parses(existing@),
        r is Err ==> r->Err_0 is ConfigEdit,
        r is Ok ==> text_with_list(
            existing@,
            r->Ok_0@,
            seq!["notify"@],
            seq![exe@, "hook"@, "codex"@],
        ),
{
    let mut doc = match parse_document(existing) {
        Ok(d) => d,
        Err(e) => {
            return Err(e);
        },
    };
    let ghost before = doc;
    let command = codex_notify_command(exe);
    put_text_list(&mut doc, "notify", command.as_slice());
    assert(list_set(before, doc, seq!["notify"@], seq![exe@, "hook"@, "codex"@]));
    Ok(document_text(&doc))
}

} // verus!
