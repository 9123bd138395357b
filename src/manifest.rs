use vstd::prelude::*;
use crate::naming::{lower_of, lowercase};

verus! {

/// Relies on chrono's `Utc::now` and `DateTime::timestamp`: the current
/// time as whole seconds since the Unix epoch. Nothing is promised of the
/// value, which depends on the clock.
#[verifier::external_body]
fn unix_now() -> (r: i64) {
    chrono::Utc::now().timestamp()
}

/// One stored template: where its bytes live and what is known about it.
/// Timestamps are whole seconds since the Unix epoch (UTC).
#[derive(Debug, Clone)]
pub struct TemplateEntry {
    /// File name of the stored content inside the templates directory.
    pub filename_in_storage: String,
    /// Lower-cased extension of the file the template was taken from.
    pub source_extension: String,
    pub created_at: i64,
    pub updated_at: i64,
    pub description: Option<String>,
    pub original_source_path: Option<String>,
    pub tags: Vec<String>,
    pub language: Option<String>,
}

/// `e` is a new entry for `filename` and `extension`, created and last
/// updated at `now`, with no optional metadata.
pub open spec fn is_fresh_entry(e: TemplateEntry, filename: Seq<char>, extension: Seq<char>, now: i64) -> bool {
    &&& e.filename_in_storage@ == filename
    &&& e.source_extension@ == extension
    &&& e.created_at == now
    &&& e.updated_at == now
    &&& e.description.is_none()
    &&& e.original_source_path.is_none()
    &&& e.tags@.len() == 0
    &&& e.language.is_none()
}

impl TemplateEntry {
    /// A new entry stamped with the current time.
    pub fn new(filename_in_storage: String, source_extension: String) -> (r: TemplateEntry)
        ensures
            is_fresh_entry(r, filename_in_storage@, source_extension@, r.created_at),
    {
        let now = unix_now();
        TemplateEntry::new_at(filename_in_storage, source_extension, now)
    }

    /// A new entry created and last updated at `now`, with no optional metadata.
    pub fn new_at(filename_in_storage: String, source_extension: String, now: i64) -> (r:
        TemplateEntry)
        ensures
            is_fresh_entry(r, filename_in_storage@, source_extension@, now),
    {
        TemplateEntry {
            filename_in_storage,
            source_extension,
            created_at: now,
            updated_at: now,
            description: None,
            original_source_path: None,
            tags: Vec::new(),
            language: None,
        }
    }
}

/// What inserting `e` under `name` stores: a replaced entry keeps its
/// creation time and is marked as updated at `now`; a new one is stored as given.
pub open spec fn stamped(
    m: Map<Seq<char>, TemplateEntry>,
    name: Seq<char>,
    e: TemplateEntry,
    now: i64,
) -> TemplateEntry {
    if m.contains_key(name) {
        TemplateEntry { created_at: m[name].created_at, updated_at: now, ..e }
    } else {
        e
    }
}

/// The catalog after `insertOrReplace(name, e)` at time `now`.
pub open spec fn inserted(
    m: Map<Seq<char>, TemplateEntry>,
    name: Seq<char>,
    e: TemplateEntry,
    now: i64,
) -> Map<Seq<char>, TemplateEntry> {
    m.insert(name, stamped(m, name, e, now))
}

/// Lexicographic order of character sequences, by code point: the order in
/// which `str` compares.
pub open spec fn lex_le(a: Seq<char>, b: Seq<char>) -> bool
    decreases a.len(),
{
    if a.len() == 0 {
        true
    } else if b.len() == 0 {
        false
    } else if a[0] != b[0] {
        a[0] < b[0]
    } else {
        lex_le(a.drop_first(), b.drop_first())
    }
}

/// Any two sequences are ordered one way or the other.
pub proof fn lemma_lex_total(a: Seq<char>, b: Seq<char>)
    ensures
        lex_le(a, b) || lex_le(b, a),
    decreases a.len(),
{
    if a.len() > 0 && b.len() > 0 && a[0] == b[0] {
        lemma_lex_total(a.drop_first(), b.drop_first());
    }
}

/// Names in case-insensitive order: each one's lower-case form is at most the next one's.
pub open spec fn sorted_by_lowercase(names: Seq<String>) -> bool {
    forall|i: int| 0 <= i < names.len() - 1 ==> lex_le(lower_of(#[trigger] names[i]@), lower_of(names[i + 1]@))
}

/// Inserting a name at a position whose neighbours' keys bound its own key
/// keeps a key-annotated list sorted.
proof fn lemma_sorted_insert(
    old_out: Seq<String>,
    old_keys: Seq<String>,
    p: int,
    name: Seq<char>,
    key: Seq<char>,
    out: Seq<String>,
    keys: Seq<String>,
)
    requires
        old_out.len() == old_keys.len(),
        0 <= p <= old_out.len(),
        forall|q: int| 0 <= q < old_out.len() ==> #[trigger] old_keys[q]@ == lower_of(old_out[q]@),
        sorted_by_lowercase(old_out),
        forall|q: int| 0 <= q < p ==> lex_le(#[trigger] old_keys[q]@, key),
        p < old_keys.len() ==> lex_le(key, old_keys[p]@),
        key == lower_of(name),
        out.len() == old_out.len() + 1,
        keys.len() == old_keys.len() + 1,
        out[p]@ == name,
        keys[p]@ == key,
        forall|q: int| 0 <= q < p ==> out[q] == old_out[q] && keys[q] == old_keys[q],
        forall|q: int| p < q < out.len() ==> out[q] == old_out[q - 1] && keys[q] == old_keys[q - 1],
    ensures
        forall|q: int| 0 <= q < out.len() ==> #[trigger] keys[q]@ == lower_of(out[q]@),
        sorted_by_lowercase(out),
{
    assert forall|q: int| 0 <= q < out.len() implies #[trigger] keys[q]@ == lower_of(out[q]@) by {
        if q > p {
            assert(keys[q] == old_keys[q - 1]);
        }
    }
    assert forall|q: int| 0 <= q < out.len() - 1 implies lex_le(
        lower_of(#[trigger] out[q]@),
        lower_of(out[q + 1]@),
    ) by {
        if q + 1 < p {
            assert(lex_le(lower_of(old_out[q]@), lower_of(old_out[q + 1]@)));
        } else if q + 1 == p {
            assert(lex_le(old_keys[q]@, key));
        } else if q == p {
            assert(out[q + 1] == old_out[q]);
        } else {
            assert(lex_le(lower_of(old_out[q - 1]@), lower_of(old_out[q]@)));
        }
    }
}

/// Inserting the name of pair `j` into a list that holds, once each, the
/// names of the pairs before `j` gives a list that holds, once each, the
/// names of the pairs up to `j`.
proof fn lemma_names_insert(
    t: Seq<(String, TemplateEntry)>,
    j: int,
    old_out: Seq<String>,
    p: int,
    out: Seq<String>,
)
    requires
        names_unique(t),
        0 <= j < t.len(),
        0 <= p <= old_out.len(),
        forall|a: int, b: int| 0 <= a < b < old_out.len() ==> old_out[a]@ != old_out[b]@,
        forall|q: int|
            0 <= q < old_out.len() ==> exists|pp: int| 0 <= pp < j && t[pp].0@ == #[trigger] old_out[q]@,
        forall|pp: int|
            0 <= pp < j ==> exists|q: int| 0 <= q < old_out.len() && old_out[q]@ == #[trigger] t[pp].0@,
        out.len() == old_out.len() + 1,
        out[p]@ == t[j].0@,
        forall|q: int| 0 <= q < p ==> out[q] == old_out[q],
        forall|q: int| p < q < out.len() ==> out[q] == old_out[q - 1],
    ensures
        forall|a: int, b: int| 0 <= a < b < out.len() ==> out[a]@ != out[b]@,
        forall|q: int|
            0 <= q < out.len() ==> exists|pp: int| 0 <= pp < j + 1 && t[pp].0@ == #[trigger] out[q]@,
        forall|pp: int|
            0 <= pp < j + 1 ==> exists|q: int| 0 <= q < out.len() && out[q]@ == #[trigger] t[pp].0@,
{
    let name = t[j].0@;
    assert forall|q: int| 0 <= q < old_out.len() implies #[trigger] old_out[q]@ != name by {
        let pp = choose|pp: int| 0 <= pp < j && t[pp].0@ == old_out[q]@;
        assert(t[pp].0@ != t[j].0@);
    }
    assert forall|a: int, b: int| 0 <= a < b < out.len() implies out[a]@ != out[b]@ by {
        if a != p && b != p {
            let a0 = if a < p { a } else { a - 1 };
            let b0 = if b < p { b } else { b - 1 };
            assert(old_out[a0]@ != old_out[b0]@);
        } else if a == p {
            assert(old_out[b - 1]@ != name);
        } else {
            assert(old_out[a]@ != name);
        }
    }
    assert forall|q: int| 0 <= q < out.len() implies exists|pp: int|
        0 <= pp < j + 1 && t[pp].0@ == #[trigger] out[q]@ by {
        if q == p {
            assert(t[j].0@ == out[q]@);
        } else {
            let q0 = if q < p { q } else { q - 1 };
            assert(out[q] == old_out[q0]);
            let pp = choose|pp: int| 0 <= pp < j && t[pp].0@ == old_out[q0]@;
        }
    }
    assert forall|pp: int| 0 <= pp < j + 1 implies exists|q: int|
        0 <= q < out.len() && out[q]@ == #[trigger] t[pp].0@ by {
        if pp == j {
            assert(out[p]@ == t[pp].0@);
        } else {
            let q0 = choose|q0: int| 0 <= q0 < old_out.len() && old_out[q0]@ == t[pp].0@;
            if q0 < p {
                assert(out[q0] == old_out[q0]);
            } else {
                assert(out[q0 + 1] == old_out[q0]);
            }
        }
    }
}

/// While the names are being sorted: `out` holds, once each and ordered
/// case-insensitively, the names of the first `j` pairs of `t`, and `keys`
/// their lower-case forms.
#[verifier::opaque]
spec fn listing_inv(t: Seq<(String, TemplateEntry)>, j: int, out: Seq<String>, keys: Seq<String>) -> bool {
    &&& forall|q: int| 0 <= q < out.len() ==> #[trigger] keys[q]@ == lower_of(out[q]@)
    &&& sorted_by_lowercase(out)
    &&& forall|a: int, b: int| 0 <= a < b < out.len() ==> out[a]@ != out[b]@
    &&& forall|q: int|
        0 <= q < out.len() ==> exists|p: int| 0 <= p < j && t[p].0@ == #[trigger] out[q]@
    &&& forall|p: int|
        0 <= p < j ==> exists|q: int| 0 <= q < out.len() && out[q]@ == #[trigger] t[p].0@
}

/// Whether `a` comes before `b` or equals it, character by character.
pub fn lex_le_exec(a: &str, b: &str) -> (r: bool)
    ensures
        r == lex_le(a@, b@),
{
    let na = a.unicode_len();
    let nb = b.unicode_len();
    let mut i: usize = 0;
    assert(a@.skip(0) =~= a@ && b@.skip(0) =~= b@);
    while i < na && i < nb
        invariant
            na == a@.len(),
            nb == b@.len(),
            i <= na,
            i <= nb,
            lex_le(a@, b@) == lex_le(a@.skip(i as int), b@.skip(i as int)),
        decreases na - i,
    {
        let ca = a.get_char(i);
        let cb = b.get_char(i);
        assert(a@.skip(i as int)[0] == ca && b@.skip(i as int)[0] == cb);
        if ca != cb {
            return ca < cb;
        }
        assert(a@.skip(i as int).drop_first() =~= a@.skip(i + 1));
        assert(b@.skip(i as int).drop_first() =~= b@.skip(i + 1));
        i = i + 1;
    }
    i == na
}

/// The map that a list of named entries describes; a later pair wins over
/// an earlier one with the same name.
pub open spec fn map_of(s: Seq<(String, TemplateEntry)>) -> Map<Seq<char>, TemplateEntry>
    decreases s.len(),
{
    if s.len() == 0 {
        Map::empty()
    } else {
        map_of(s.drop_last()).insert(s.last().0@, s.last().1)
    }
}

/// No two pairs of `s` carry the same name.
pub open spec fn names_unique(s: Seq<(String, TemplateEntry)>) -> bool {
    forall|i: int, j: int| 0 <= i < j < s.len() ==> s[i].0@ != s[j].0@
}

/// With unique names, `map_of(s)` holds exactly the pairs of `s`.
pub proof fn lemma_map_of_unique(s: Seq<(String, TemplateEntry)>)
    requires
        names_unique(s),
    ensures
        forall|i: int|
            0 <= i < s.len() ==> #[trigger] map_of(s).contains_key(s[i].0@) && map_of(s)[s[i].0@]
                == s[i].1,
        forall|k: Seq<char>| #[trigger]
            map_of(s).contains_key(k) ==> exists|i: int| 0 <= i < s.len() && s[i].0@ == k,
    decreases s.len(),
{
    if s.len() > 0 {
        let t = s.drop_last();
        assert(map_of(s) == map_of(t).insert(s.last().0@, s.last().1));
        assert forall|i: int, j: int| 0 <= i < j < t.len() implies t[i].0@ != t[j].0@ by {
            assert(s[i].0@ != s[j].0@);
        }
        lemma_map_of_unique(t);
        assert forall|i: int| 0 <= i < s.len() implies #[trigger] map_of(s).contains_key(s[i].0@)
            && map_of(s)[s[i].0@] == s[i].1 by {
            if i < s.len() - 1 {
                assert(t[i] == s[i]);
                assert(map_of(t).contains_key(t[i].0@));
                assert(s[i].0@ != s[s.len() - 1].0@);
            }
        }
        assert forall|k: Seq<char>| #[trigger] map_of(s).contains_key(k) implies exists|i: int|
            0 <= i < s.len() && s[i].0@ == k by {
            if k != s.last().0@ {
                assert(map_of(t).contains_key(k));
                let i = choose|i: int| 0 <= i < t.len() && t[i].0@ == k;
                assert(s[i] == t[i]);
            }
        }
    }
}

/// The catalog: template names mapped to their entries.
pub struct Manifest {
    templates: Vec<(String, TemplateEntry)>,
    contents: Ghost<Map<Seq<char>, TemplateEntry>>,
}

impl View for Manifest {
    type V = Map<Seq<char>, TemplateEntry>;

    closed spec fn view(&self) -> Map<Seq<char>, TemplateEntry> {
        self.contents@
    }
}

impl Manifest {
    /// The stored pairs agree with the model: names are unique, each pair is
    /// in the map, and every key of the map has a pair.
    pub closed spec fn wf(&self) -> bool {
        &&& names_unique(self.templates@)
        &&& forall|i: int|
            0 <= i < self.templates@.len() ==> #[trigger] self.contents@.contains_key(
                self.templates@[i].0@,
            ) && self.contents@[self.templates@[i].0@] == self.templates@[i].1
        &&& forall|k: Seq<char>| #[trigger]
            self.contents@.contains_key(k) ==> exists|i: int|
                0 <= i < self.templates@.len() && self.templates@[i].0@ == k
    }

    /// The pairs in storage order, as `into_entries` hands them out.
    pub closed spec fn entry_seq(&self) -> Seq<(String, TemplateEntry)> {
        self.templates@
    }

    /// An empty catalog.
    pub fn new() -> (r: Manifest)
        ensures
            r.wf(),
            r@ == Map::<Seq<char>, TemplateEntry>::empty(),
    {
        Manifest { templates: Vec::new(), contents: Ghost(Map::empty()) }
    }

    /// Position of the pair named `name`, if any.
    fn find(&self, name: &str) -> (r: Option<usize>)
        requires
            self.wf(),
        ensures
            match r {
                Some(i) => i < self.templates@.len() && self.templates@[i as int].0@ == name@
                    && self@.contains_key(name@),
                None => !self@.contains_key(name@),
            },
    {
        let key = name.to_owned();
        let mut i: usize = 0;
        while i < self.templates.len()
            invariant
                self.wf(),
                i <= self.templates@.len(),
                key@ == name@,
                forall|j: int| 0 <= j < i ==> self.templates@[j].0@ != name@,
            decreases self.templates@.len() - i,
        {
            if self.templates[i].0 == key {
                assert(self@.contains_key(self.templates@[i as int].0@));
                return Some(i);
            }
            i = i + 1;
        }
        proof {
            if self@.contains_key(name@) {
                let j = choose|j: int|
                    0 <= j < self.templates@.len() && self.templates@[j].0@ == name@;
                assert(self.templates@[j].0@ != name@);
            }
        }
        None
    }

    /// The entry stored under `name`.
    pub fn get_template(&self, name: &str) -> (r: Option<&TemplateEntry>)
        requires
            self.wf(),
        ensures
            match r {
                Some(e) => self@.contains_key(name@) && *e == self@[name@],
                None => !self@.contains_key(name@),
            },
    {
        match self.find(name) {
            Some(i) => Some(&self.templates[i].1),
            None => None,
        }
    }

    /// Whether the catalog holds no template.
    pub fn is_empty(&self) -> (r: bool)
        requires
            self.wf(),
        ensures
            r == (self@ == Map::<Seq<char>, TemplateEntry>::empty()),
    {
        if self.templates.len() == 0 {
            assert(self@ =~= Map::<Seq<char>, TemplateEntry>::empty()) by {
                assert forall|k: Seq<char>| !self@.contains_key(k) by {
                    if self@.contains_key(k) {
                        let j = choose|j: int|
                            0 <= j < self.templates@.len() && self.templates@[j].0@ == k;
                    }
                }
            }
            true
        } else {
            assert(self@.contains_key(self.templates@[0].0@));
            false
        }
    }

    /// Inserts `entry` under `name`, stamping a replacement with the current time.
    pub fn add_template(&mut self, name: String, entry: TemplateEntry)
        requires
            old(self).wf(),
        ensures
            final(self).wf(),
            exists|now: i64| final(self)@ == inserted(old(self)@, name@, entry, now),
    {
        let now = unix_now();
        self.add_template_at(name, entry, now);
    }

    /// Inserts `entry` under `name`. Where `name` is already present, the stored
    /// entry keeps its creation time and is marked as updated at `now`; all its
    /// other fields are replaced.
    pub fn add_template_at(&mut self, name: String, entry: TemplateEntry, now: i64)
        requires
            old(self).wf(),
        ensures
            final(self).wf(),
            final(self)@ == inserted(old(self)@, name@, entry, now),
    {
        let ghost e = stamped(self@, name@, entry, now);
        let mut entry = entry;
        match self.get_template(name.as_str()) {
            Some(existing) => {
                entry.created_at = existing.created_at;
                entry.updated_at = now;
            },
            None => {},
        }
        assert(entry == e);
        self.insert_entry(name, entry);
    }

    /// The stored pairs have unique names and describe exactly the catalog.
    pub proof fn lemma_entry_seq(&self)
        requires
            self.wf(),
        ensures
            names_unique(self.entry_seq()),
            map_of(self.entry_seq()) == self@,
    {
        lemma_map_of_unique(self.templates@);
        assert(map_of(self.templates@) =~= self@) by {
            assert forall|k: Seq<char>| #[trigger] self@.contains_key(k) implies map_of(
                self.templates@,
            ).contains_key(k) by {
                let i = choose|i: int|
                    0 <= i < self.templates@.len() && self.templates@[i].0@ == k;
            }
            assert forall|k: Seq<char>| #[trigger]
                map_of(self.templates@).contains_key(k) implies self@.contains_key(k)
                && map_of(self.templates@)[k] == self@[k] by {
                let i = choose|i: int|
                    0 <= i < self.templates@.len() && self.templates@[i].0@ == k;
            }
        }
    }

    /// Hands out the stored pairs, one per template.
    pub fn into_entries(self) -> (r: Vec<(String, TemplateEntry)>)
        requires
            self.wf(),
        ensures
            r@ == self.entry_seq(),
            names_unique(r@),
            map_of(r@) == self@,
    {
        proof {
            self.lemma_entry_seq();
        }
        self.templates
    }

    /// Builds a catalog from named entries; where a name occurs twice the
    /// later pair wins. No timestamp is touched.
    pub fn from_entries(entries: Vec<(String, TemplateEntry)>) -> (r: Manifest)
        ensures
            r.wf(),
            r@ == map_of(entries@),
    {
        let ghost all = entries@;
        let mut r = Manifest::new();
        let mut rest = entries;
        let total = rest.len();
        let mut n: usize = 0;
        while rest.len() > 0
            invariant
                r.wf(),
                n + rest@.len() == total,
                total == all.len(),
                rest@ == all.skip(n as int),
                r@ == map_of(all.take(n as int)),
            decreases rest@.len(),
        {
            let (name, entry) = rest.remove(0);
            proof {
                assert(all.take(n + 1).drop_last() =~= all.take(n as int));
                assert(rest@ =~= all.skip(n + 1));
            }
            r.insert_entry(name, entry);
            n = n + 1;
        }
        assert(all.take(n as int) =~= all);
        r
    }

    /// Stores `entry` under `name` exactly as given.
    fn insert_entry(&mut self, name: String, entry: TemplateEntry)
        requires
            old(self).wf(),
        ensures
            final(self).wf(),
            final(self)@ == old(self)@.insert(name@, entry),
    {
        let ghost k = name@;
        let ghost e = entry;
        let ghost mut at: int = 0;
        match self.find(name.as_str()) {
            Some(i) => {
                self.templates.set(i, (name, entry));
                proof {
                    at = i as int;
                }
            },
            None => {
                self.templates.push((name, entry));
                proof {
                    at = self.templates@.len() - 1;
                }
            },
        }
        self.contents = Ghost(self.contents@.insert(k, e));
        proof {
            let pre = old(self).templates@;
            assert(self.templates@[at].0@ == k && self.templates@[at].1 == e);
            assert forall|j: int| 0 <= j < self.templates@.len() && j != at implies #[trigger]
                self.templates@[j] == pre[j] && pre[j].0@ != k by {
                assert(old(self).contents@.contains_key(pre[j].0@));
            }
            assert forall|i: int, j: int| 0 <= i < j < self.templates@.len() implies
                self.templates@[i].0@ != self.templates@[j].0@ by {
                if i != at && j != at {
                    assert(self.templates@[i] == pre[i] && self.templates@[j] == pre[j]);
                    assert(pre[i].0@ != pre[j].0@);
                } else if i == at {
                    assert(self.templates@[j] == pre[j] && pre[j].0@ != k);
                } else {
                    assert(self.templates@[i] == pre[i] && pre[i].0@ != k);
                }
            }
            assert(names_unique(self.templates@));
            assert forall|j: int| 0 <= j < self.templates@.len() implies #[trigger]
                self.contents@.contains_key(self.templates@[j].0@)
                && self.contents@[self.templates@[j].0@] == self.templates@[j].1 by {
                if j != at {
                    assert(old(self).contents@.contains_key(pre[j].0@));
                }
            }
            assert forall|k2: Seq<char>| #[trigger] self.contents@.contains_key(k2) implies exists|
                j: int,
            | 0 <= j < self.templates@.len() && self.templates@[j].0@ == k2 by {
                if k2 == k {
                    assert(self.templates@[at].0@ == k2);
                } else {
                    let j = choose|j: int| 0 <= j < pre.len() && pre[j].0@ == k2;
                    assert(self.templates@[j] == pre[j]);
                }
            }
        }
    }

    /// Marks the entry under `name` as updated at `now`; returns whether the
    /// name was present. Nothing else changes.
    pub fn touch_template(&mut self, name: &str, now: i64) -> (r: bool)
        requires
            old(self).wf(),
        ensures
            final(self).wf(),
            r == old(self)@.contains_key(name@),
            r ==> final(self)@ == old(self)@.insert(
                name@,
                TemplateEntry { updated_at: now, ..old(self)@[name@] },
            ),
            !r ==> final(self)@ == old(self)@,
    {
        match self.remove_template(name) {
            Some(entry) => {
                let mut entry = entry;
                entry.updated_at = now;
                self.insert_entry(name.to_owned(), entry);
                assert(final(self)@ =~= old(self)@.insert(
                    name@,
                    TemplateEntry { updated_at: now, ..old(self)@[name@] },
                ));
                true
            },
            None => false,
        }
    }

    /// The template names, ordered case-insensitively, each exactly once.
    #[verifier::spinoff_prover]
    #[verifier::rlimit(40)]
    pub fn sorted_names(&self) -> (r: Vec<String>)
        requires
            self.wf(),
        ensures
            sorted_by_lowercase(r@),
            forall|i: int, j: int| 0 <= i < j < r@.len() ==> r@[i]@ != r@[j]@,
            forall|i: int| 0 <= i < r@.len() ==> self@.contains_key(#[trigger] r@[i]@),
            forall|k: Seq<char>| #[trigger]
                self@.contains_key(k) ==> exists|i: int| 0 <= i < r@.len() && r@[i]@ == k,
    {
        let ghost t = self.templates@;
        let mut out: Vec<String> = Vec::new();
        let mut keys: Vec<String> = Vec::new();
        let mut j: usize = 0;
        proof {
            reveal(listing_inv);
        }
        while j < self.templates.len()
            invariant
                self.wf(),
                t == self.templates@,
                j <= t.len(),
                out@.len() == keys@.len(),
                listing_inv(t, j as int, out@, keys@),
            decreases t.len() - j,
        {
            let name = self.templates[j].0.clone();
            let key = lowercase(name.as_str());
            let mut p: usize = 0;
            while p < keys.len() && lex_le_exec(keys[p].as_str(), key.as_str())
                invariant
                    p <= keys@.len(),
                    forall|q: int| 0 <= q < p ==> lex_le(#[trigger] keys@[q]@, key@),
                decreases keys@.len() - p,
            {
                p = p + 1;
            }
            proof {
                if p < keys@.len() {
                    lemma_lex_total(keys@[p as int]@, key@);
                }
                assert(name@ == t[j as int].0@);
            }
            let ghost old_out = out@;
            let ghost old_keys = keys@;
            let ghost name_v = name@;
            let ghost key_v = key@;
            out.insert(p, name);
            keys.insert(p, key);
            proof {
                reveal(listing_inv);
                lemma_sorted_insert(old_out, old_keys, p as int, name_v, key_v, out@, keys@);
                lemma_names_insert(t, j as int, old_out, p as int, out@);
            }
            j = j + 1;
        }
        proof {
            reveal(listing_inv);
            assert forall|k: Seq<char>| #[trigger] self@.contains_key(k) implies exists|i: int|
                0 <= i < out@.len() && out@[i]@ == k by {
                let pp = choose|pp: int| 0 <= pp < t.len() && t[pp].0@ == k;
                assert(exists|q: int| 0 <= q < out@.len() && out@[q]@ == t[pp].0@);
            }
            assert forall|i: int| 0 <= i < out@.len() implies self@.contains_key(#[trigger] out@[i]@) by {
                let pp = choose|pp: int| 0 <= pp < t.len() && t[pp].0@ == out@[i]@;
                assert(self@.contains_key(t[pp].0@));
            }
        }
        out
    }

    /// Removes the entry stored under `name` and returns it.
    pub fn remove_template(&mut self, name: &str) -> (r: Option<TemplateEntry>)
        requires
            old(self).wf(),
        ensures
            final(self).wf(),
            final(self)@ == old(self)@.remove(name@),
            match r {
                Some(e) => old(self)@.contains_key(name@) && e == old(self)@[name@],
                None => !old(self)@.contains_key(name@),
            },
    {
        match self.find(name) {
            Some(i) => {
                let ghost before = self.templates@;
                let (_, e) = self.templates.remove(i);
                self.contents = Ghost(self.contents@.remove(name@));
                proof {
                    assert forall|j: int| 0 <= j < self.templates@.len() implies #[trigger]
                        self.contents@.contains_key(self.templates@[j].0@)
                        && self.contents@[self.templates@[j].0@] == self.templates@[j].1 by {
                        if j < i {
                            assert(self.templates@[j] == before[j]);
                            assert(before[j].0@ != before[i as int].0@);
                        } else {
                            assert(self.templates@[j] == before[j + 1]);
                            assert(before[j + 1].0@ != before[i as int].0@);
                        }
                        assert(old(self).contents@.contains_key(before[j].0@));
                        assert(old(self).contents@.contains_key(before[j + 1].0@));
                    }
                    assert forall|k2: Seq<char>| #[trigger]
                        self.contents@.contains_key(k2) implies exists|j: int|
                        0 <= j < self.templates@.len() && self.templates@[j].0@ == k2 by {
                        let j = choose|j: int| 0 <= j < before.len() && before[j].0@ == k2;
                        if j < i {
                            assert(self.templates@[j] == before[j]);
                        } else {
                            assert(self.templates@[j - 1] == before[j]);
                        }
                    }
                }
                Some(e)
            },
            None => {
                assert(self.contents@.remove(name@) =~= self.contents@);
                None
            },
        }
    }
}

} // verus!
