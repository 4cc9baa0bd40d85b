//! Name-keyed material and texture stores, and the fallback resolution
//! chain that connects a shape's base name to a record.
//!
//! Resolution tries the exact base name first, then the name with its
//! trailing digit run stripped, and (for materials only) the stripped name
//! with the character '1' appended. A miss after the whole chain is
//! recoverable: the caller falls back to a documented default, so a miss is
//! reported as `None` rather than as an error.

use crate::materials::MaterialRecord;
use crate::names::{str_eq, strip_spec, strip_trailing_digits};
use vstd::prelude::*;

verus! {

/// Looks a key up in a mathematical map, as an `Option`.
pub open spec fn map_get<K, V>(m: Map<K, V>, k: K) -> Option<V> {
    if m.contains_key(k) {
        Some(m[k])
    } else {
        None
    }
}

/// A material store keyed by base name. Inserting an existing name
/// replaces its record, as for a map; its mathematical view is the
/// `Map` from name to record.
pub struct MaterialMap {
    entries: Vec<(String, MaterialRecord)>,
}

/// The map that a sequence of insertions builds up, later entries
/// overwriting earlier ones.
pub open spec fn material_entries_view(entries: Seq<(String, MaterialRecord)>) -> Map<
    Seq<char>,
    MaterialRecord,
>
    decreases entries.len(),
{
    if entries.len() == 0 {
        Map::empty()
    } else {
        material_entries_view(entries.drop_last()).insert(
            entries.last().0@,
            entries.last().1,
        )
    }
}

impl View for MaterialMap {
    type V = Map<Seq<char>, MaterialRecord>;

    closed spec fn view(&self) -> Map<Seq<char>, MaterialRecord> {
        material_entries_view(self.entries@)
    }
}

/// When entry `i` matches `name` and no later entry does, the map built
/// from the entries holds entry `i`'s record under `name`.
proof fn lemma_material_lookup_hit(entries: Seq<(String, MaterialRecord)>, name: Seq<char>, i: int)
    requires
        0 <= i < entries.len(),
        entries[i].0@ == name,
        forall|j: int| i < j < entries.len() ==> (#[trigger] entries[j].0)@ != name,
    ensures
        material_entries_view(entries).contains_key(name),
        material_entries_view(entries)[name] == entries[i].1,
    decreases entries.len(),
{
    if i == entries.len() - 1 {
    } else {
        lemma_material_lookup_hit(entries.drop_last(), name, i);
    }
}

/// When no entry matches `name`, the map built from the entries has no
/// key `name`.
proof fn lemma_material_lookup_miss(entries: Seq<(String, MaterialRecord)>, name: Seq<char>)
    requires
        forall|j: int| 0 <= j < entries.len() ==> (#[trigger] entries[j].0)@ != name,
    ensures
        !material_entries_view(entries).contains_key(name),
    decreases entries.len(),
{
    if entries.len() > 0 {
        lemma_material_lookup_miss(entries.drop_last(), name);
    }
}

impl MaterialMap {
    /// Every record in the store is well-formed.
    pub open spec fn wf(self) -> bool {
        forall|k: Seq<char>| #[trigger] self@.contains_key(k) ==> self@[k].wf()
    }

    /// Creates an empty store.
    pub fn new() -> (r: MaterialMap)
        ensures
            r@ == Map::<Seq<char>, MaterialRecord>::empty(),
            r.wf(),
    {
        MaterialMap { entries: Vec::new() }
    }

    /// Records `record` under `name`, replacing any earlier record with
    /// that name.
    pub fn insert(&mut self, name: String, record: MaterialRecord)
        requires
            record.wf(),
        ensures
            final(self)@ == old(self)@.insert(name@, record),
            old(self).wf() ==> final(self).wf(),
    {
        let ghost pre = self.entries@;
        self.entries.push((name, record));
        proof {
            assert(self.entries@.drop_last() =~= pre);
        }
    }

    /// Returns the record stored under exactly `name`, if any.
    pub fn get(&self, name: &str) -> (r: Option<MaterialRecord>)
        ensures
            r == map_get(self@, name@),
    {
        let n = self.entries.len();
        let mut i: usize = n;
        while i > 0
            invariant
                i <= n,
                n == self.entries@.len(),
                forall|j: int| i <= j < n ==> (#[trigger] self.entries@[j].0)@ != name@,
            decreases i,
        {
            i = i - 1;
            if str_eq(self.entries[i].0.as_str(), name) {
                proof {
                    lemma_material_lookup_hit(self.entries@, name@, i as int);
                }
                return Some(self.entries[i].1);
            }
        }
        proof {
            lemma_material_lookup_miss(self.entries@, name@);
        }
        None
    }
}

/// A texture store keyed by base name, mapping each name to an image file
/// path. Its mathematical view is the `Map` from name to path.
pub struct TextureMap {
    entries: Vec<(String, String)>,
}

/// The map that a sequence of insertions builds up, later entries
/// overwriting earlier ones.
pub open spec fn texture_entries_view(entries: Seq<(String, String)>) -> Map<Seq<char>, Seq<char>>
    decreases entries.len(),
{
    if entries.len() == 0 {
        Map::empty()
    } else {
        texture_entries_view(entries.drop_last()).insert(
            entries.last().0@,
            entries.last().1@,
        )
    }
}

impl View for TextureMap {
    type V = Map<Seq<char>, Seq<char>>;

    closed spec fn view(&self) -> Map<Seq<char>, Seq<char>> {
        texture_entries_view(self.entries@)
    }
}

/// When entry `i` matches `name` and no later entry does, the map built
/// from the entries holds entry `i`'s path under `name`.
proof fn lemma_texture_lookup_hit(entries: Seq<(String, String)>, name: Seq<char>, i: int)
    requires
        0 <= i < entries.len(),
        entries[i].0@ == name,
        forall|j: int| i < j < entries.len() ==> (#[trigger] entries[j].0)@ != name,
    ensures
        texture_entries_view(entries).contains_key(name),
        texture_entries_view(entries)[name] == entries[i].1@,
    decreases entries.len(),
{
    if i == entries.len() - 1 {
    } else {
        lemma_texture_lookup_hit(entries.drop_last(), name, i);
    }
}

/// When no entry matches `name`, the map built from the entries has no
/// key `name`.
proof fn lemma_texture_lookup_miss(entries: Seq<(String, String)>, name: Seq<char>)
    requires
        forall|j: int| 0 <= j < entries.len() ==> (#[trigger] entries[j].0)@ != name,
    ensures
        !texture_entries_view(entries).contains_key(name),
    decreases entries.len(),
{
    if entries.len() > 0 {
        lemma_texture_lookup_miss(entries.drop_last(), name);
    }
}

impl TextureMap {
    /// Creates an empty store.
    pub fn new() -> (r: TextureMap)
        ensures
            r@ == Map::<Seq<char>, Seq<char>>::empty(),
    {
        TextureMap { entries: Vec::new() }
    }

    /// Records the image path under `name`, replacing any earlier path
    /// with that name.
    pub fn insert(&mut self, name: String, path: String)
        ensures
            final(self)@ == old(self)@.insert(name@, path@),
    {
        let ghost pre = self.entries@;
        self.entries.push((name, path));
        proof {
            assert(self.entries@.drop_last() =~= pre);
        }
    }

    /// Returns a copy of the path stored under exactly `name`, if any.
    pub fn get(&self, name: &str) -> (r: Option<String>)
        ensures
            match r {
                Some(p) => self@.contains_key(name@) && p@ == self@[name@],
                None => !self@.contains_key(name@),
            },
    {
        let n = self.entries.len();
        let mut i: usize = n;
        while i > 0
            invariant
                i <= n,
                n == self.entries@.len(),
                forall|j: int| i <= j < n ==> (#[trigger] self.entries@[j].0)@ != name@,
            decreases i,
        {
            i = i - 1;
            if str_eq(self.entries[i].0.as_str(), name) {
                proof {
                    lemma_texture_lookup_hit(self.entries@, name@, i as int);
                }
                return Some(self.entries[i].1.clone());
            }
        }
        proof {
            lemma_texture_lookup_miss(self.entries@, name@);
        }
        None
    }
}

/// The material resolution chain: the exact base name, then the name with
/// trailing digits stripped, then the stripped name with '1' appended,
/// and `None` after three misses.
pub open spec fn resolve_material_spec(
    m: Map<Seq<char>, MaterialRecord>,
    name: Seq<char>,
) -> Option<MaterialRecord> {
    if m.contains_key(name) {
        Some(m[name])
    } else if m.contains_key(strip_spec(name)) {
        Some(m[strip_spec(name)])
    } else {
        map_get(m, strip_spec(name).push('1'))
    }
}

/// The texture resolution chain: the exact base name, then the name with
/// trailing digits stripped, and `None` after both misses.
pub open spec fn resolve_texture_spec(
    t: Map<Seq<char>, Seq<char>>,
    name: Seq<char>,
) -> Option<Seq<char>> {
    if t.contains_key(name) {
        Some(t[name])
    } else {
        map_get(t, strip_spec(name))
    }
}

/// Resolves a material record for a shape's base name through the
/// fallback chain. `None` is the recoverable resolution miss: the caller
/// assigns the default white matte material instead.
pub fn resolve_material(map: &MaterialMap, name: &str) -> (r: Option<MaterialRecord>)
    ensures
        r == resolve_material_spec(map@, name@),
        map.wf() ==> (r matches Some(m) ==> m.wf()),
{
    if let Some(found) = map.get(name) {
        return Some(found);
    }
    let stripped = strip_trailing_digits(name);
    let ghost stripped_view = stripped@;
    if let Some(found) = map.get(stripped.as_str()) {
        return Some(found);
    }
    let with_one = stripped.concat("1");
    proof {
        reveal_strlit("1");
        assert(with_one@ =~= strip_spec(name@).push('1'));
    }
    map.get(with_one.as_str())
}

/// Resolves a texture path for a shape's base name through the fallback
/// chain. `None` merges "deliberately untextured" and "lookup failed":
/// either way the shape shades from the material record's flat color.
pub fn resolve_texture(map: &TextureMap, name: &str) -> (r: Option<String>)
    ensures
        crate::materials::opt_path_view(r) == resolve_texture_spec(map@, name@),
{
    if let Some(found) = map.get(name) {
        return Some(found);
    }
    let stripped = strip_trailing_digits(name);
    map.get(stripped.as_str())
}

/// Resolution is deterministic and idempotent: two resolutions of the same
/// base name through the same material map yield the same record.
pub proof fn lemma_resolution_deterministic(
    m: Map<Seq<char>, MaterialRecord>,
    name: Seq<char>,
    r1: Option<MaterialRecord>,
    r2: Option<MaterialRecord>,
)
    requires
        r1 == resolve_material_spec(m, name),
        r2 == resolve_material_spec(m, name),
    ensures
        r1 == r2,
{
}

} // verus!
