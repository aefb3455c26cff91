use vstd::prelude::*;
use vstd::string::*;

use toml_edit::DocumentMut;

use crate::error::ConfigError;

verus! {

#[verifier::external_type_specification]
#[verifier::external_body]
pub struct ExDocumentMut(toml_edit::DocumentMut);


/// What the document's top-level `import` key holds: `None` where the key is
/// absent, `Some(None)` where its value is not an array of strings, and
/// otherwise the strings of the array, in order.
pub uninterp spec fn import_entry(d: DocumentMut) -> Option<Option<Seq<Seq<char>>>>;

/// The document's top-level entries other than `import`: each key, with the
/// text of its item, comments and layout included.
pub uninterp spec fn other_entries(d: DocumentMut) -> Map<Seq<char>, Seq<char>>;

/// Whether a text is a TOML document.
pub uninterp spec fn parses_as_toml(s: Seq<char>) -> bool;

/// The parser's message for a text that is not TOML: where it stopped and why.
pub uninterp spec fn parse_error_of(s: Seq<char>) -> Seq<char>;

/// The text of the document with the top-level `import` key-value (its key,
/// value and surrounding layout) taken out: every other byte, in order.
pub uninterp spec fn text_besides_import(d: DocumentMut) -> Seq<char>;

/// The text of a document, as it is written back.
pub uninterp spec fn document_text(d: DocumentMut) -> Seq<char>;

/// The abstract value of what `read_imports` hands back.
pub open spec fn lookup_view(r: Option<Option<Vec<String>>>) -> Option<Option<Seq<Seq<char>>>> {
    match r {
        None => None,
        Some(None) => Some(None),
        Some(Some(v)) => Some(Some(v@.map_values(|s: String| s@))),
    }
}

/// Relies on `DocumentMut::from_str`: it succeeds exactly on TOML text, and
/// otherwise hands back a `TomlError`, whose `Display` gives the message.
#[verifier::external_body]
fn parse_document(text: &str) -> (r: Result<DocumentMut, String>)
    ensures
        r is Ok <==> parses_as_toml(text@),
        r matches Err(m) ==> m@ == parse_error_of(text@),
{
    text.parse::<DocumentMut>().map_err(|e| e.to_string())
}

/// Relies on `Table::get`, `Item::as_array`, `Array::iter` and
/// `Value::as_str`: reads the top-level `import` entry as strings.
#[verifier::external_body]
fn read_imports(doc: &DocumentMut) -> (r: Option<Option<Vec<String>>>)
    ensures
        lookup_view(r) == import_entry(*doc),
{
    doc.get("import").map(|item| {
        item.as_array().and_then(|a| a.iter().map(|v| v.as_str().map(String::from)).collect())
    })
}

/// Relies on `Table::get_mut`, `Item::as_array_mut` and `Array::push`: appends
/// a string to the existing `import` array, leaving the rest as it was.
#[verifier::external_body]
fn push_import(doc: &mut DocumentMut, reference: &str)
    requires
        import_entry(*old(doc)) matches Some(Some(_)),
    ensures
        import_entry(*final(doc)) == Some(
            Some(import_entry(*old(doc)).unwrap().unwrap().push(reference@)),
        ),
        other_entries(*final(doc)) == other_entries(*old(doc)),
        text_besides_import(*final(doc)) == text_besides_import(*old(doc)),
{
    if let Some(array) = doc.get_mut("import").and_then(toml_edit::Item::as_array_mut) {
        array.push(reference);
    }
}

/// Relies on `Array::push` and `Table::insert`: adds a new top-level
/// `import` array holding one string, leaving the other entries as they were.
#[verifier::external_body]
fn insert_import(doc: &mut DocumentMut, reference: &str)
    requires
        import_entry(*old(doc)) is None,
    ensures
        import_entry(*final(doc)) == Some(Some(seq![reference@])),
        other_entries(*final(doc)) == other_entries(*old(doc)),
        text_besides_import(*final(doc)) == text_besides_import(*old(doc)),
{
    let mut array = toml_edit::Array::new();
    array.push(reference);
    doc.insert("import", toml_edit::value(array));
}

/// Relies on `DocumentMut`'s `Display`: the text of the document.
#[verifier::external_body]
pub(crate) fn render_config(doc: &DocumentMut) -> (r: String)
    ensures
        r@ == document_text(*doc),
{
    doc.to_string()
}

/// The import reference of a theme: `<base>/<name>.toml`.
pub open spec fn reference_of(base: Seq<char>, theme_name: Seq<char>) -> Seq<char> {
    base + "/"@ + theme_name + ".toml"@
}

/// An import list with `reference` appended, unless it is already there.
pub open spec fn with_reference(list: Seq<Seq<char>>, reference: Seq<char>) -> Seq<Seq<char>> {
    if list.contains(reference) {
        list
    } else {
        list.push(reference)
    }
}

/// What the `import` entry becomes when `reference` is added to it: a new
/// list where it was absent, unchanged where it is malformed.
pub open spec fn imports_after(
    entry: Option<Option<Seq<Seq<char>>>>,
    reference: Seq<char>,
) -> Option<Option<Seq<Seq<char>>>> {
    match entry {
        None => Some(Some(seq![reference])),
        Some(None) => Some(None),
        Some(Some(list)) => Some(Some(with_reference(list, reference))),
    }
}

/// How many times `reference` occurs in an import list.
pub open spec fn occurrences(list: Seq<Seq<char>>, reference: Seq<char>) -> nat
    decreases list.len(),
{
    if list.len() == 0 {
        0
    } else {
        occurrences(list.drop_last(), reference) + if list.last() == reference {
            1nat
        } else {
            0nat
        }
    }
}

/// Builds the import reference of a theme: `<base>/<name>.toml`.
pub fn theme_reference(themes_base_dir: &str, theme_name: &str) -> (r: String)
    ensures
        r@ == reference_of(themes_base_dir@, theme_name@),
{
    String::from_str(themes_base_dir).concat("/").concat(theme_name).concat(".toml")
}

/// Parses the configuration text into an editable document that keeps its
/// layout; text that is not TOML gives `ParseFailure` with the parser's
/// message.
pub fn parse_config(text: &str) -> (r: Result<DocumentMut, ConfigError>)
    ensures
        r is Ok <==> parses_as_toml(text@),
        r matches Err(e) ==> e matches ConfigError::ParseFailure(m) && m@ == parse_error_of(
            text@,
        ),
{
    match parse_document(text) {
        Ok(doc) => Ok(doc),
        Err(message) => Err(ConfigError::ParseFailure(message)),
    }
}

fn contains_string(list: &Vec<String>, s: &String) -> (r: bool)
    ensures
        r == list@.map_values(|x: String| x@).contains(s@),
{
    let ghost seen = list@.map_values(|x: String| x@);
    let mut i: usize = 0;
    while i < list.len()
        invariant
            seen == list@.map_values(|x: String| x@),
            i <= list@.len(),
            forall|j: int| 0 <= j < i ==> seen[j] != s@,
        decreases list@.len() - i,
    {
        if list[i] == *s {
            assert(seen[i as int] == s@);
            return true;
        }
        i += 1;
    }
    proof {
        if seen.contains(s@) {
            let k = choose|k: int| 0 <= k < seen.len() && seen[k] == s@;
            assert(seen[k] != s@);
        }
    }
    false
}

/// Adds the theme `theme_name` to the document's `import` list as
/// `<themes_base_dir>/<theme_name>.toml`. The list is created where it is
/// absent, and left alone where it already holds that reference, so that
/// repeated runs never accumulate duplicates. An `import` value that is not an
/// array of strings gives `MalformedDocument` and no change. No other
/// top-level entry is touched, and no byte of the text outside the `import`
/// entry changes.
pub fn add_theme_import(doc: &mut DocumentMut, theme_name: &str, themes_base_dir: &str)
    -> (r: Result<(), ConfigError>)
    ensures
        r is Err <==> import_entry(*old(doc)) == Some(None::<Seq<Seq<char>>>),
        r is Err ==> r == Err::<(), ConfigError>(ConfigError::MalformedDocument),
        import_entry(*final(doc)) == imports_after(
            import_entry(*old(doc)),
            reference_of(themes_base_dir@, theme_name@),
        ),
        other_entries(*final(doc)) == other_entries(*old(doc)),
        text_besides_import(*final(doc)) == text_besides_import(*old(doc)),
        import_entry(*final(doc)) == import_entry(*old(doc)) ==> *final(doc) == *old(doc),
{
    let reference = theme_reference(themes_base_dir, theme_name);
    let ghost before = import_entry(*doc);
    match read_imports(doc) {
        None => {
            insert_import(doc, reference.as_str());
            Ok(())
        },
        Some(None) => Err(ConfigError::MalformedDocument),
        Some(Some(list)) => {
            if !contains_string(&list, &reference) {
                push_import(doc, reference.as_str());
                assert(import_entry(*doc).unwrap().unwrap().len() == before.unwrap().unwrap().len()
                    + 1);
            }
            Ok(())
        },
    }
}

proof fn lemma_occurrences_contains(list: Seq<Seq<char>>, reference: Seq<char>)
    ensures
        occurrences(list, reference) > 0 <==> list.contains(reference),
    decreases list.len(),
{
    if list.len() > 0 {
        let rest = list.drop_last();
        lemma_occurrences_contains(rest, reference);
        if rest.contains(reference) {
            let k = choose|k: int| 0 <= k < rest.len() && rest[k] == reference;
            assert(list[k] == reference);
        }
        if list.contains(reference) && list.last() != reference {
            let k = choose|k: int| 0 <= k < list.len() && list[k] == reference;
            assert(rest[k] == reference);
        }
        if list.last() == reference {
            assert(list[list.len() - 1] == reference);
        }
    }
}

/// Adding the same theme twice leaves the import entry as adding it once
/// did; and where the reference occurred at most once before (or there was no
/// list), the list then holds it exactly once.
pub proof fn lemma_add_import_idempotent(
    entry: Option<Option<Seq<Seq<char>>>>,
    themes_base_dir: Seq<char>,
    theme_name: Seq<char>,
)
    ensures
        imports_after(imports_after(entry, reference_of(themes_base_dir, theme_name)),
            reference_of(themes_base_dir, theme_name))
            == imports_after(entry, reference_of(themes_base_dir, theme_name)),
        (entry is None || (entry matches Some(Some(list)) && occurrences(
            list,
            reference_of(themes_base_dir, theme_name),
        ) <= 1)) ==> occurrences(
            imports_after(entry, reference_of(themes_base_dir, theme_name)).unwrap().unwrap(),
            reference_of(themes_base_dir, theme_name),
        ) == 1,
{
    let r = reference_of(themes_base_dir, theme_name);
    match entry {
        None => {
            let single = seq![r];
            assert(single.drop_last() =~= Seq::<Seq<char>>::empty());
            assert(occurrences(Seq::<Seq<char>>::empty(), r) == 0);
            assert(occurrences(single, r) == 1);
            assert(single.contains(r)) by {
                assert(single[0] == r);
            }
        },
        Some(None) => {},
        Some(Some(list)) => {
            let once = with_reference(list, r);
            lemma_occurrences_contains(list, r);
            if !list.contains(r) {
                assert(once.drop_last() =~= list);
                assert(occurrences(once, r) == occurrences(list, r) + 1);
                assert(once.contains(r)) by {
                    assert(once[list.len() as int] == r);
                }
            }
        },
    }
}

} // verus!
