//! Reading and editing Cargo manifests through `toml_edit`, which keeps the
//! document's formatting when it is written back.
use vstd::prelude::*;

verus! {

#[verifier::external_type_specification]
#[verifier::external_body]
pub struct ExDocumentMut(toml_edit::DocumentMut);

#[verifier::external_type_specification]
#[verifier::external_body]
pub struct ExItem(toml_edit::Item);

#[verifier::external_type_specification]
#[verifier::external_body]
pub struct ExTomlError(toml_edit::TomlError);

/// What an item of a TOML document is, as far as reading and editing
/// manifests needs to tell: a table (a `[table]` or an inline table), a
/// string, some other value (a number, an array, an array of tables, ...),
/// or the empty item that `toml_edit` leaves in a table it indexed mutably.
pub enum TomlNode {
    Empty,
    Table,
    Text(Seq<char>),
    Other,
}

/// The contents of an item: each path of keys that leads through tables
/// below it (the empty path for the item itself) mapped to what stands
/// there. What lies inside arrays is not reached by keys and not listed.
pub type TomlTree = Map<Seq<Seq<char>>, TomlNode>;

/// The contents of the document that `toml_edit` parses from the text, none
/// when it rejects the text.
pub uninterp spec fn parsed_toml(text: Seq<char>) -> Option<TomlTree>;

/// The contents of a document (those of its root table).
pub uninterp spec fn toml_tree(doc: toml_edit::DocumentMut) -> TomlTree;

/// The contents of an item.
pub uninterp spec fn item_tree(item: toml_edit::Item) -> TomlTree;

/// Whether the document's root item is a standard table (not an inline
/// table or any other item), as every parsed document's root is.
pub uninterp spec fn standard_root(doc: toml_edit::DocumentMut) -> bool;

/// The text that `toml_edit` writes for a document, which keeps the
/// formatting that it was parsed with.
pub uninterp spec fn toml_rendering(doc: toml_edit::DocumentMut) -> Seq<char>;

/// Whether `toml_edit` parses the text as a TOML document.
pub open spec fn toml_parses(text: Seq<char>) -> bool {
    parsed_toml(text) is Some
}

/// What stands at the top of a tree.
pub open spec fn node_at(t: TomlTree) -> TomlNode {
    if t.contains_key(Seq::empty()) {
        t[Seq::empty()]
    } else {
        TomlNode::Empty
    }
}

/// The tree below the entry `key` of a tree.
pub open spec fn subtree(t: TomlTree, key: Seq<char>) -> TomlTree {
    Map::new(
        |p: Seq<Seq<char>>| t.contains_key(seq![key] + p),
        |p: Seq<Seq<char>>| t[seq![key] + p],
    )
}

/// A table holds a non-empty entry `key` (what `Item::get` finds).
pub open spec fn has_entry(t: TomlTree, key: Seq<char>) -> bool {
    node_at(t) is Table && t.contains_key(seq![key]) && !(t[seq![key]] is Empty)
}

/// Indexing the item mutably with a key does not panic: it is a table, or
/// empty (and then becomes an inline table).
pub open spec fn indexable(t: TomlTree) -> bool {
    node_at(t) is Table || node_at(t) is Empty
}

/// The tree of the single item `node`.
pub open spec fn leaf(node: TomlNode) -> TomlTree {
    map![Seq::empty() => node]
}

/// The entry `key` that mutable indexing hands out: the existing one, or a
/// new empty item.
pub open spec fn slot(t: TomlTree, key: Seq<char>) -> TomlTree {
    if node_at(t) is Table && t.contains_key(seq![key]) {
        subtree(t, key)
    } else {
        leaf(TomlNode::Empty)
    }
}

/// The tree once mutable indexing made it a table: an empty item becomes an
/// empty inline table.
pub open spec fn opened(t: TomlTree) -> TomlTree {
    if node_at(t) is Empty {
        leaf(TomlNode::Table)
    } else {
        t
    }
}

/// The tree with the entry `key` replaced by the tree `c`.
pub open spec fn graft(t: TomlTree, key: Seq<char>, c: TomlTree) -> TomlTree {
    Map::new(
        |p: Seq<Seq<char>>|
            if p.len() > 0 && p[0] == key {
                c.contains_key(p.drop_first())
            } else {
                t.contains_key(p)
            },
        |p: Seq<Seq<char>>|
            if p.len() > 0 && p[0] == key {
                c[p.drop_first()]
            } else {
                t[p]
            },
    )
}

/// A document's text: the rendering of some document with these contents.
pub open spec fn renders(text: Seq<char>, t: TomlTree) -> bool {
    exists|d: toml_edit::DocumentMut| toml_rendering(d) == text && #[trigger] toml_tree(d) == t
}

/// `DocumentMut::from_str`: the document whose contents `parsed_toml`
/// names, or the parser's error where it names none.
#[verifier::external_body]
fn parse_document(text: &str) -> (res: Result<toml_edit::DocumentMut, toml_edit::TomlError>)
    ensures
        res is Ok <==> toml_parses(text@),
        res matches Ok(d) ==> parsed_toml(text@) == Some(toml_tree(d)),
        res matches Ok(d) ==> well_formed_tree(toml_tree(d)),
        res matches Ok(d) ==> standard_root(d) && node_at(toml_tree(d)) is Table,
{
    text.parse::<toml_edit::DocumentMut>()
}

/// `TomlError`'s `Display` text; nothing is stated of it.
#[verifier::external_body]
fn error_text(error: &toml_edit::TomlError) -> String {
    error.to_string()
}

/// `TomlError`'s `Debug` text (what unwrapping the failed parse prints);
/// nothing is stated of it.
#[verifier::external_body]
fn error_debug_text(error: &toml_edit::TomlError) -> String {
    format!("{:?}", error)
}

/// `DocumentMut::as_item`: the root table, with the document's contents.
#[verifier::external_body]
fn root(doc: &toml_edit::DocumentMut) -> (res: &toml_edit::Item)
    ensures
        item_tree(*res) == toml_tree(*doc),
{
    doc.as_item()
}

/// `doc[key]` (`IndexMut` on the document, which indexes its root table):
/// the root's entry `key`, inserted empty when missing; the document ends up
/// holding what the entry holds when it is released, and its root stays a
/// standard table.
#[verifier::external_body]
fn doc_entry_mut<'a>(doc: &'a mut toml_edit::DocumentMut, key: &str) -> (res: &'a mut toml_edit::Item)
    requires
        standard_root(*old(doc)),
    ensures
        item_tree(*res) == slot(toml_tree(*old(doc)), key@),
        toml_tree(*final(doc)) == graft(opened(toml_tree(*old(doc))), key@, item_tree(*final(res))),
        standard_root(*final(doc)),
{
    &mut doc[key]
}

/// `Item::is_table_like`: whether the item is a table or an inline table.
#[verifier::external_body]
fn is_table(item: &toml_edit::Item) -> (res: bool)
    ensures
        res == (node_at(item_tree(*item)) is Table),
{
    item.is_table_like()
}

/// `Item::is_none`: whether the item is the empty item.
#[verifier::external_body]
fn is_empty(item: &toml_edit::Item) -> (res: bool)
    ensures
        res == (node_at(item_tree(*item)) is Empty),
{
    item.is_none()
}

/// `Item::get` with a key: the entry of a table or inline table, none when
/// the item is no table, lacks the key or holds an empty item there.
#[verifier::external_body]
fn entry<'a>(item: &'a toml_edit::Item, key: &str) -> (res: Option<&'a toml_edit::Item>)
    ensures
        res is Some <==> has_entry(item_tree(*item), key@),
        res matches Some(e) ==> item_tree(*e) == subtree(item_tree(*item), key@),
{
    item.get(key)
}

/// `item[key]` (`IndexMut`) on a table or an empty item: the entry `key`,
/// inserted empty when missing, where an empty item first becomes an inline
/// table; the item ends up holding what the entry holds when it is
/// released. On any other item it panics, which `requires` leaves out.
#[verifier::external_body]
fn entry_mut<'a>(item: &'a mut toml_edit::Item, key: &str) -> (res: &'a mut toml_edit::Item)
    requires
        indexable(item_tree(*old(item))),
    ensures
        item_tree(*res) == slot(item_tree(*old(item)), key@),
        item_tree(*final(item)) == graft(opened(item_tree(*old(item))), key@, item_tree(*final(res))),
{
    &mut item[key]
}

/// `Item::as_str`: the text of a string value, none for anything else.
#[verifier::external_body]
fn item_text(item: &toml_edit::Item) -> (res: Option<String>)
    ensures
        match node_at(item_tree(*item)) {
            TomlNode::Text(s) => res matches Some(r) && r@ == s,
            _ => res is None,
        },
{
    match item.as_str() {
        Some(text) => Some(text.to_string()),
        None => None,
    }
}

/// Assigns `toml_edit::value(text)` to the item: it becomes that string.
#[verifier::external_body]
fn assign_text(item: &mut toml_edit::Item, text: &str)
    ensures
        item_tree(*final(item)) == leaf(TomlNode::Text(text@)),
{
    *item = toml_edit::value(text);
}

/// `DocumentMut`'s `Display` text, named by `toml_rendering`. It panics
/// on a document whose root is no standard table, which `requires` leaves
/// out.
#[verifier::external_body]
fn document_text(doc: &toml_edit::DocumentMut) -> (res: String)
    requires
        standard_root(*doc),
    ensures
        res@ == toml_rendering(*doc),
{
    doc.to_string()
}

/// What reading `package.name` from a manifest found.
#[derive(Clone, Debug)]
pub enum ManifestLookup {
    /// The text is no TOML document; the parser's message.
    Unparsable(String),
    /// `package` or `name` is missing, or `package` is no table (where
    /// indexing the document panics).
    MissingKey,
    /// `package.name` is not a string.
    NotText,
    /// The package name.
    Name(String),
}

/// What editing the workspace template found.
#[derive(Clone, Debug)]
pub enum TemplateEdit {
    /// The template is no TOML document; the parser's error as `Debug`
    /// prints it.
    Unparsable(String),
    /// Some level of `workspace.dependencies.pages` is a value other than a
    /// table (where indexing the document panics).
    MissingKey,
    /// The edited document's text.
    Edited(String),
}

/// What `package.name` holds in a manifest's contents: none when `package`
/// or `name` is missing (or `package` is no table), `Some(None)` when it is
/// no string, else `Some` of its text.
pub open spec fn name_entry(t: TomlTree) -> Option<Option<Seq<char>>> {
    if has_entry(t, "package"@) && has_entry(subtree(t, "package"@), "name"@) {
        match node_at(subtree(subtree(t, "package"@), "name"@)) {
            TomlNode::Text(s) => Some(Some(s)),
            _ => Some(None),
        }
    } else {
        None
    }
}

/// What reading `package.name` from the manifest text finds.
pub open spec fn lookup_of(text: Seq<char>, l: ManifestLookup) -> bool {
    match parsed_toml(text) {
        None => l is Unparsable,
        Some(t) => match name_entry(t) {
            None => l is MissingKey,
            Some(None) => l is NotText,
            Some(Some(n)) => l matches ManifestLookup::Name(m) && m@ == n,
        },
    }
}

/// Reads `package.name` from a manifest, as
/// `text.parse::<DocumentMut>()` followed by `doc["package"]["name"].as_str()`.
pub fn package_name(text: &str) -> (res: ManifestLookup)
    ensures
        lookup_of(text@, res),
{
    match parse_document(text) {
        Err(e) => ManifestLookup::Unparsable(error_text(&e)),
        Ok(doc) => {
            let top = root(&doc);
            match entry(top, "package") {
                None => ManifestLookup::MissingKey,
                Some(package) => match entry(package, "name") {
                    None => ManifestLookup::MissingKey,
                    Some(name) => match item_text(name) {
                        None => ManifestLookup::NotText,
                        Some(n) => ManifestLookup::Name(n),
                    },
                },
            }
        },
    }
}

/// The contents once `doc["workspace"]["dependencies"]["pages"]` has been
/// reached mutably and, when `values` is given, its `path` and `package`
/// set to those strings; none where an indexing panics (a level that is a
/// value other than a table).
pub open spec fn pages_entry_edit(t: TomlTree, values: Option<(Seq<char>, Seq<char>)>) -> Option<TomlTree> {
    let w = slot(t, "workspace"@);
    let d = slot(w, "dependencies"@);
    let p = slot(d, "pages"@);
    if !indexable(t) || !indexable(w) || !indexable(d) {
        None
    } else {
        let edited = match values {
            None => Some(p),
            Some((path, package)) => if indexable(p) {
                Some(
                    graft(
                        graft(opened(p), "path"@, leaf(TomlNode::Text(path))),
                        "package"@,
                        leaf(TomlNode::Text(package)),
                    ),
                )
            } else {
                None
            },
        };
        match edited {
            None => None,
            Some(q) => Some(
                graft(
                    opened(t),
                    "workspace"@,
                    graft(opened(w), "dependencies"@, graft(opened(d), "pages"@, q)),
                ),
            ),
        }
    }
}

/// What editing the template text finds: unparsable, a level that cannot
/// be indexed, or the text of a document with the edited contents.
pub open spec fn template_edit_of(
    template: Seq<char>,
    values: Option<(Seq<char>, Seq<char>)>,
    e: TemplateEdit,
) -> bool {
    match parsed_toml(template) {
        None => e is Unparsable,
        Some(t) => well_formed_tree(t) && match pages_entry_edit(t, values) {
            None => e is MissingKey,
            Some(edited) => e matches TemplateEdit::Edited(s) && renders(s@, edited),
        },
    }
}

/// A tree as `toml_edit` items form it: everything below the top stands
/// in tables, all the way up.
pub open spec fn well_formed_tree(t: TomlTree) -> bool {
    forall|p: Seq<Seq<char>>, i: int|
        #![trigger t.contains_key(p), p.take(i)]
        t.contains_key(p) && 0 <= i < p.len() ==> t.contains_key(p.take(i)) && t[p.take(i)] is Table
}

/// The two trees hold the same at path `r`.
pub open spec fn same_at(a: TomlTree, b: TomlTree, r: Seq<Seq<char>>) -> bool {
    &&& a.contains_key(r) == b.contains_key(r)
    &&& b.contains_key(r) ==> a[r] == b[r]
}

/// The path of the `pages` dependency entry.
pub open spec fn pages_key_path() -> Seq<Seq<char>> {
    seq!["workspace"@, "dependencies"@, "pages"@]
}

/// A path that editing the `pages` entry leaves alone: neither one of the
/// tables on the way to it (which an empty item turns into) nor its `path`
/// or `package`.
pub open spec fn outside_pages_edit(p: Seq<Seq<char>>) -> bool {
    &&& !(p.len() <= 3 && p == pages_key_path().take(p.len() as int))
    &&& !(p.len() >= 4 && p.take(3) == pages_key_path() && (p[3] == "path"@ || p[3] == "package"@))
}

proof fn seq_split(p: Seq<Seq<char>>)
    requires
        p.len() > 0,
    ensures
        p == seq![p[0]] + p.drop_first(),
{
    assert(p =~= seq![p[0]] + p.drop_first());
}

proof fn seq_join(k: Seq<char>, r: Seq<Seq<char>>)
    ensures
        (seq![k] + r).len() > 0,
        (seq![k] + r)[0] == k,
        (seq![k] + r).drop_first() == r,
{
    assert((seq![k] + r).drop_first() =~= r);
}

/// The tree `a` holds at `r` what the tree `b` holds at `q`.
pub open spec fn holds_as(a: TomlTree, r: Seq<Seq<char>>, b: TomlTree, q: Seq<Seq<char>>) -> bool {
    &&& a.contains_key(r) == b.contains_key(q)
    &&& b.contains_key(q) ==> a[r] == b[q]
}

/// Below the top, the entry that mutable indexing hands out holds what the
/// tree holds under its key, and it is well formed again.
proof fn slot_below(t: TomlTree, k: Seq<char>)
    requires
        well_formed_tree(t),
    ensures
        well_formed_tree(slot(t, k)),
        forall|r: Seq<Seq<char>>| r.len() > 0 ==> #[trigger] holds_as(slot(t, k), r, t, seq![k] + r),
{
    assert forall|r: Seq<Seq<char>>| r.len() > 0 implies #[trigger] holds_as(slot(t, k), r, t, seq![k] + r) by {
        seq_join(k, r);
        if !(node_at(t) is Table && t.contains_key(seq![k])) {
            if t.contains_key(seq![k] + r) {
                assert((seq![k] + r).take(0) =~= Seq::<Seq<char>>::empty());
                assert((seq![k] + r).take(1) =~= seq![k]);
            }
        }
    }
    if node_at(t) is Table && t.contains_key(seq![k]) {
        let s = slot(t, k);
        assert forall|p: Seq<Seq<char>>, i: int|
            s.contains_key(p) && 0 <= i < p.len() implies s.contains_key(#[trigger] p.take(i)) && s[p.take(
            i,
        )] is Table by {
            assert(t.contains_key(seq![k] + p));
            assert((seq![k] + p).take(i + 1) =~= seq![k] + p.take(i));
        }
    }
}

/// Below the top, an item once opened as a table holds what it held.
proof fn opened_below(t: TomlTree)
    requires
        well_formed_tree(t),
    ensures
        well_formed_tree(opened(t)),
        forall|r: Seq<Seq<char>>| r.len() > 0 ==> #[trigger] same_at(opened(t), t, r),
        indexable(t) ==> node_at(opened(t)) is Table,
{
    assert forall|r: Seq<Seq<char>>| r.len() > 0 implies #[trigger] same_at(opened(t), t, r) by {
        if node_at(t) is Empty && t.contains_key(r) {
            assert(r.take(0) =~= Seq::<Seq<char>>::empty());
        }
    }
}

/// Grafting `c` under `key` puts what `c` holds at `r` at the path `key`
/// then `r`.
proof fn graft_inside(t: TomlTree, key: Seq<char>, c: TomlTree, r: Seq<Seq<char>>)
    ensures
        holds_as(graft(t, key, c), seq![key] + r, c, r),
{
    seq_join(key, r);
}

/// Editing the `pages` entry of a well-formed template sets its `path` and
/// `package` to the given strings and keeps everything else the template
/// holds: at every path outside the tables on the way to `pages` and
/// outside its `path` and `package`, the edited contents hold what the
/// template held, and nothing new.
pub proof fn pages_edit_sets_and_keeps(t: TomlTree, path: Seq<char>, package: Seq<char>)
    requires
        well_formed_tree(t),
        pages_entry_edit(t, Some((path, package))) is Some,
    ensures
        ({
            let e = pages_entry_edit(t, Some((path, package)))->0;
            &&& e.contains_key(pages_key_path().push("path"@))
            &&& e[pages_key_path().push("path"@)] == TomlNode::Text(path)
            &&& e.contains_key(pages_key_path().push("package"@))
            &&& e[pages_key_path().push("package"@)] == TomlNode::Text(package)
            &&& forall|p: Seq<Seq<char>>| outside_pages_edit(p) ==> #[trigger] same_at(e, t, p)
        }),
{
    reveal_strlit("path");
    reveal_strlit("package");
    reveal_strlit("workspace");
    reveal_strlit("dependencies");
    reveal_strlit("pages");
    let kw = "workspace"@;
    let kd = "dependencies"@;
    let kp = "pages"@;
    let w = slot(t, kw);
    let d = slot(w, kd);
    let pg = slot(d, kp);
    let q1 = graft(opened(pg), "path"@, leaf(TomlNode::Text(path)));
    let q = graft(q1, "package"@, leaf(TomlNode::Text(package)));
    let x2 = graft(opened(d), kp, q);
    let x1 = graft(opened(w), kd, x2);
    let e = graft(opened(t), kw, x1);
    assert(e == pages_entry_edit(t, Some((path, package)))->0);
    opened_below(t);
    slot_below(t, kw);
    opened_below(w);
    slot_below(w, kd);
    opened_below(d);
    slot_below(d, kp);
    opened_below(pg);
    assert("path"@ != "package"@) by {
        assert("path"@.len() != "package"@.len());
    }
    // The two values set.
    let empty = Seq::<Seq<char>>::empty();
    assert(pages_key_path().push("path"@) =~= seq![kw] + (seq![kd] + (seq![kp] + (seq!["path"@] + empty))));
    assert(pages_key_path().push("package"@) =~= seq![kw] + (seq![kd] + (seq![kp] + (seq![
        "package"@,
    ] + empty))));
    graft_inside(opened(t), kw, x1, seq![kd] + (seq![kp] + (seq!["path"@] + empty)));
    graft_inside(opened(w), kd, x2, seq![kp] + (seq!["path"@] + empty));
    graft_inside(opened(d), kp, q, seq!["path"@] + empty);
    seq_join("path"@, empty);
    graft_inside(opened(pg), "path"@, leaf(TomlNode::Text(path)), empty);
    graft_inside(opened(t), kw, x1, seq![kd] + (seq![kp] + (seq!["package"@] + empty)));
    graft_inside(opened(w), kd, x2, seq![kp] + (seq!["package"@] + empty));
    graft_inside(opened(d), kp, q, seq!["package"@] + empty);
    graft_inside(q1, "package"@, leaf(TomlNode::Text(package)), empty);
    // Everything else is kept.
    assert forall|p: Seq<Seq<char>>| outside_pages_edit(p) implies #[trigger] same_at(e, t, p) by {
        assert(p.len() > 0) by {
            if p.len() == 0 {
                assert(p =~= pages_key_path().take(0));
            }
        }
        if p[0] != kw {
            assert(same_at(opened(t), t, p));
        } else {
            seq_split(p);
            let r1 = p.drop_first();
            graft_inside(opened(t), kw, x1, r1);
            assert(r1.len() > 0) by {
                if r1.len() == 0 {
                    assert(p =~= pages_key_path().take(1));
                }
            }
            if r1[0] != kd {
                assert(same_at(opened(w), w, r1));
                assert(holds_as(w, r1, t, seq![kw] + r1));
            } else {
                seq_split(r1);
                let r2 = r1.drop_first();
                graft_inside(opened(w), kd, x2, r2);
                assert(r2.len() > 0) by {
                    if r2.len() == 0 {
                        assert(p =~= pages_key_path().take(2));
                    }
                }
                assert(holds_as(w, r1, t, seq![kw] + r1));
                if r2[0] != kp {
                    assert(same_at(opened(d), d, r2));
                    assert(holds_as(d, r2, w, seq![kd] + r2));
                } else {
                    seq_split(r2);
                    let r3 = r2.drop_first();
                    graft_inside(opened(d), kp, q, r3);
                    assert(r3.len() > 0) by {
                        if r3.len() == 0 {
                            assert(p =~= pages_key_path().take(3));
                        }
                    }
                    assert(holds_as(d, r2, w, seq![kd] + r2));
                    assert(p.take(3) =~= pages_key_path());
                    assert(p[3] == r3[0]);
                    assert(same_at(opened(pg), pg, r3));
                    assert(holds_as(pg, r3, d, seq![kp] + r3));
                }
            }
        }
    }
}

/// The values to set, as texts.
pub open spec fn values_view(values: Option<(&str, &str)>) -> Option<(Seq<char>, Seq<char>)> {
    match values {
        None => None,
        Some((path, package)) => Some((path@, package@)),
    }
}

/// Walks `workspace.dependencies.pages` in the document mutably, as
/// `doc["workspace"]["dependencies"]["pages"]` does, and sets its `path` and
/// `package` when `values` is given. Returns whether no indexing would
/// have panicked; then the document holds the edited contents.
fn edit_pages_entry(doc: &mut toml_edit::DocumentMut, values: Option<(&str, &str)>) -> (ok: bool)
    requires
        standard_root(*old(doc)),
        node_at(toml_tree(*old(doc))) is Table,
    ensures
        standard_root(*final(doc)),
        ok <==> pages_entry_edit(toml_tree(*old(doc)), values_view(values)) is Some,
        ok ==> pages_entry_edit(toml_tree(*old(doc)), values_view(values)) == Some(
            toml_tree(*final(doc)),
        ),
{
    let workspace = doc_entry_mut(doc, "workspace");
    if !(is_table(workspace) || is_empty(workspace)) {
        return false;
    }
    let dependencies = entry_mut(workspace, "dependencies");
    if !(is_table(dependencies) || is_empty(dependencies)) {
        return false;
    }
    let pages = entry_mut(dependencies, "pages");
    match values {
        None => true,
        Some((path, package)) => {
            if !(is_table(pages) || is_empty(pages)) {
                return false;
            }
            let item = entry_mut(pages, "path");
            assign_text(item, path);
            let item = entry_mut(pages, "package");
            assign_text(item, package);
            true
        },
    }
}

/// Parses the workspace template and reaches its
/// `workspace.dependencies.pages` entry, as the packer does before it
/// reads the current directory.
pub fn check_template(template: &str) -> (res: TemplateEdit)
    ensures
        template_edit_of(template@, None, res),
{
    match parse_document(template) {
        Err(e) => TemplateEdit::Unparsable(error_debug_text(&e)),
        Ok(doc) => {
            let mut doc = doc;
            if edit_pages_entry(&mut doc, None) {
                let text = document_text(&doc);
                assert(toml_tree(doc) == pages_entry_edit(parsed_toml(template@)->0, None)->0);
                TemplateEdit::Edited(text)
            } else {
                TemplateEdit::MissingKey
            }
        },
    }
}

/// The workspace manifest for packing: the template with
/// `workspace.dependencies.pages.path` and `.package` set to the given
/// strings.
pub fn workspace_manifest(template: &str, pages_path: &str, package: &str) -> (res: TemplateEdit)
    ensures
        template_edit_of(template@, Some((pages_path@, package@)), res),
{
    match parse_document(template) {
        Err(e) => TemplateEdit::Unparsable(error_debug_text(&e)),
        Ok(doc) => {
            let mut doc = doc;
            if edit_pages_entry(&mut doc, Some((pages_path, package))) {
                let text = document_text(&doc);
                assert(toml_tree(doc) == pages_entry_edit(
                    parsed_toml(template@)->0,
                    Some((pages_path@, package@)),
                )->0);
                TemplateEdit::Edited(text)
            } else {
                TemplateEdit::MissingKey
            }
        },
    }
}

/// The project's package name is the string at `package.name` and only
/// that: when the parsed manifest's root is a table whose `package` entry is
/// a table holding a string `name`, the lookup gives exactly that string,
/// whatever else the manifest holds; without a `package` entry the key is
/// missing; and a `package.name` that is some other value is no text.
pub proof fn package_name_is_the_package_tables_name(text: Seq<char>, t: TomlTree, l: ManifestLookup)
    requires
        parsed_toml(text) == Some(t),
        lookup_of(text, l),
    ensures
        ({
            let top = Seq::<Seq<char>>::empty();
            let pk = seq!["package"@];
            let nk = seq!["package"@, "name"@];
            &&& (t.contains_key(top) && t[top] is Table && t.contains_key(pk) && t[pk] is Table
                && t.contains_key(nk)) ==> (t[nk] matches TomlNode::Text(s) ==> l matches ManifestLookup::Name(
                m,
            ) && m@ == s)
            &&& (t.contains_key(top) && t[top] is Table && t.contains_key(pk) && t[pk] is Table
                && t.contains_key(nk) && t[nk] is Other) ==> l is NotText
            &&& (t.contains_key(top) && t[top] is Table && t.contains_key(pk) && t[pk] is Table
                && t.contains_key(nk) && t[nk] is Table) ==> l is NotText
            &&& !t.contains_key(pk) ==> l is MissingKey
        }),
{
    let top = Seq::<Seq<char>>::empty();
    let pk = seq!["package"@];
    let nk = seq!["package"@, "name"@];
    let sp = subtree(t, "package"@);
    assert(seq!["package"@] + top =~= pk);
    assert(seq!["name"@] + top =~= seq!["name"@]);
    assert(seq!["package"@] + seq!["name"@] =~= nk);
    assert(seq!["package"@] + (seq!["name"@] + top) =~= nk);
    assert(sp.contains_key(top) == t.contains_key(pk));
    assert(sp.contains_key(seq!["name"@]) == t.contains_key(nk));
    if t.contains_key(pk) {
        assert(sp[top] == t[pk]);
    }
    if t.contains_key(nk) {
        assert(sp[seq!["name"@]] == t[nk]);
        let sn = subtree(sp, "name"@);
        assert(sn.contains_key(top));
        assert(sn[top] == t[nk]);
    }
}

} // verus!
