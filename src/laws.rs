use vstd::prelude::*;
use crate::locator::stored_path_of;
use crate::manifest::{Manifest, TemplateEntry, inserted, map_of, names_unique};
use crate::naming::joined_of;
use crate::strategy::{WriteAction, content_after};

verus! {

/// After a template is added, resolving its name finds the file named in the
/// new entry, so the path printed for it is the one its bytes were copied to;
/// a replaced entry keeps its creation time and is marked as updated.
pub proof fn law_add_then_resolve(
    m: Map<Seq<char>, TemplateEntry>,
    name: Seq<char>,
    e: TemplateEntry,
    now: i64,
    templates_dir: Seq<char>,
)
    ensures
        inserted(m, name, e, now).contains_key(name),
        stored_path_of(inserted(m, name, e, now), templates_dir, name) == joined_of(
            templates_dir,
            e.filename_in_storage@,
        ),
        inserted(m, name, e, now)[name].source_extension == e.source_extension,
        m.contains_key(name) ==> inserted(m, name, e, now)[name].created_at == m[name].created_at
            && inserted(m, name, e, now)[name].updated_at == now,
        forall|k: Seq<char>|
            k != name ==> (#[trigger] inserted(m, name, e, now).contains_key(k) == m.contains_key(k)),
{
}

/// Once a template is removed, its name no longer resolves, while every other
/// name keeps its entry.
pub proof fn law_remove_then_not_found(m: Map<Seq<char>, TemplateEntry>, name: Seq<char>)
    ensures
        !m.remove(name).contains_key(name),
        forall|k: Seq<char>|
            k != name && m.contains_key(k) ==> #[trigger] m.remove(name).contains_key(k)
                && m.remove(name)[k] == m[k],
{
}

/// Handing a catalog's entries out and building a catalog from them again
/// yields the same catalog, so writing the document and reading it back
/// repeatedly changes nothing.
pub proof fn law_entries_round_trip(m: Manifest)
    requires
        m.wf(),
    ensures
        names_unique(m.entry_seq()),
        map_of(m.entry_seq()) == m@,
{
    m.lemma_entry_seq();
}

/// A destination that did not exist ends up holding exactly the template's content.
pub proof fn law_created_file_holds_template(template: String, existing: Seq<char>)
    ensures
        content_after(WriteAction::Create(template), existing) == template@,
{
}

} // verus!
