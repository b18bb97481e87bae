//! Shader program model: the native program handle, the lazily populated
//! uniform name-to-location cache, and the decisions of the compile-and-link
//! flow (stage identifiers, stage names, and the report-don't-abort failure
//! flag).
//!
//! The cache is the reason a repeated uniform lookup issues no second native
//! location-resolution call: the embedding application asks
//! [`Shader::cached_location`] first and performs the native call only on a
//! miss, recording the answer with [`Shader::record_location`].

use vstd::prelude::*;

verus! {

/// Native identifier of the vertex shader stage.
pub const GL_VERTEX_SHADER: u32 = 0x8B31;
/// Native identifier of the fragment shader stage.
pub const GL_FRAGMENT_SHADER: u32 = 0x8B30;
/// Native identifier of the geometry shader stage.
pub const GL_GEOMETRY_SHADER: u32 = 0x8DD9;
/// The native boolean true, which compile and link status queries return on
/// success.
pub const GL_TRUE: i32 = 1;

/// The location that the cache associates with a uniform name: the location
/// recorded last for that name, if any.
pub open spec fn cache_lookup_spec(entries: Seq<(String, i32)>, name: Seq<char>) -> Option<i32>
    decreases entries.len(),
{
    if entries.len() == 0 {
        None
    } else if entries.last().0@ == name {
        Some(entries.last().1)
    } else {
        cache_lookup_spec(entries.drop_last(), name)
    }
}

/// A shader program: the native program handle and the uniform
/// name-to-location cache, populated lazily on first use and valid only for
/// the program it was resolved against: installing a replacement program
/// empties it.
pub struct Shader {
    pub program: u32,
    pub uniforms_location: Vec<(String, i32)>,
}

impl Shader {
    /// A fresh shader with no program and an empty cache.  A fresh instance
    /// can never answer a lookup from the cache, so no location resolved for
    /// an earlier program is ever reused.
    pub fn new() -> (r: Self)
        ensures
            r.program == 0,
            r.uniforms_location@ =~= Seq::<(String, i32)>::empty(),
    {
        Self { program: 0, uniforms_location: Vec::new() }
    }

    /// The cached location of the given uniform name, if one was recorded.
    /// The embedding application issues the native location-resolution call
    /// exactly when this returns `None`.
    pub fn cached_location(&self, name: &str) -> (r: Option<i32>)
        ensures
            r == cache_lookup_spec(self.uniforms_location@, name@),
    {
        let key: String = name.to_owned();
        let ghost entries = self.uniforms_location@;
        let mut i: usize = self.uniforms_location.len();
        proof {
            assert(entries.take(entries.len() as int) =~= entries);
        }
        while i > 0
            invariant
                key@ == name@,
                entries == self.uniforms_location@,
                0 <= i <= entries.len(),
                cache_lookup_spec(entries, name@) == cache_lookup_spec(
                    entries.take(i as int),
                    name@,
                ),
            decreases i,
        {
            i = i - 1;
            proof {
                assert(entries.take(i + 1).drop_last() =~= entries.take(i as int));
                assert(entries.take(i + 1).last() == entries[i as int]);
            }
            if self.uniforms_location[i].0 == key {
                return Some(self.uniforms_location[i].1);
            }
        }
        proof {
            assert(entries.take(0) =~= Seq::<(String, i32)>::empty());
        }
        None
    }

    /// Installs a freshly linked program and empties the cache: locations
    /// resolved for the replaced program are never answered again, so no
    /// stale location can be reused after a reload.
    pub fn install_program(&mut self, program: u32)
        ensures
            final(self).program == program,
            final(self).uniforms_location@ =~= Seq::<(String, i32)>::empty(),
            forall|name: Seq<char>| #[trigger] cache_lookup_spec(
                final(self).uniforms_location@,
                name,
            ) == None::<i32>,
    {
        self.program = program;
        self.uniforms_location = Vec::new();
    }

    /// Records the location that the native call resolved for the given name.
    /// Afterwards a lookup of that name answers this location, and lookups of
    /// every other name are unchanged.
    pub fn record_location(&mut self, name: &str, location: i32)
        ensures
            final(self).program == old(self).program,
            final(self).uniforms_location@.len() == old(self).uniforms_location@.len() + 1,
            final(self).uniforms_location@.drop_last() == old(self).uniforms_location@,
            final(self).uniforms_location@.last().0@ == name@,
            final(self).uniforms_location@.last().1 == location,
            cache_lookup_spec(final(self).uniforms_location@, name@) == Some(location),
            forall|other: Seq<char>|
                other != name@ ==> #[trigger] cache_lookup_spec(
                    final(self).uniforms_location@,
                    other,
                ) == cache_lookup_spec(old(self).uniforms_location@, other),
    {
        let key: String = name.to_owned();
        self.uniforms_location.push((key, location));
    }
}

/// Once a location is recorded for a name, looking that name up in the cache
/// answers the recorded location: resolving the same uniform name twice on
/// one program issues exactly one native location-resolution call.
pub proof fn lemma_lookup_after_record(entries: Seq<(String, i32)>, entry: (String, i32))
    ensures
        cache_lookup_spec(entries.push(entry), entry.0@) == Some(entry.1),
{
    assert(entries.push(entry).last() == entry);
}

/// An empty cache answers no name: a fresh shader instance always issues the
/// native location-resolution call, never a location cached for a replaced
/// program.
pub proof fn lemma_fresh_cache_misses(name: Seq<char>)
    ensures
        cache_lookup_spec(Seq::<(String, i32)>::empty(), name) == None::<i32>,
{
}

/// Native stage identifier of the compile-stage tag used by the loading flow:
/// 0 compiles the vertex stage, 1 the fragment stage, anything else the
/// geometry stage.
pub open spec fn shader_stage_gl_spec(stage: u8) -> u32 {
    if stage == 0 {
        GL_VERTEX_SHADER
    } else if stage == 1 {
        GL_FRAGMENT_SHADER
    } else {
        GL_GEOMETRY_SHADER
    }
}

pub fn shader_stage_gl(stage: u8) -> (r: u32)
    ensures
        r == shader_stage_gl_spec(stage),
{
    if stage == 0 {
        GL_VERTEX_SHADER
    } else if stage == 1 {
        GL_FRAGMENT_SHADER
    } else {
        GL_GEOMETRY_SHADER
    }
}

/// The compile plan of one load: the stage tag each supplied source is
/// compiled with, so that every source is compiled as its own stage — the
/// vertex source as the native vertex stage, the fragment source as the
/// fragment stage, and the geometry source, exactly when one is supplied, as
/// the geometry stage.
pub fn compile_stage_tags(has_geometry: bool) -> (r: (u8, u8, Option<u8>))
    ensures
        shader_stage_gl_spec(r.0) == GL_VERTEX_SHADER,
        shader_stage_gl_spec(r.1) == GL_FRAGMENT_SHADER,
        r.2 is Some <==> has_geometry,
        r.2 matches Some(tag) ==> shader_stage_gl_spec(tag) == GL_GEOMETRY_SHADER,
{
    if has_geometry {
        (0, 1, Some(2))
    } else {
        (0, 1, None)
    }
}

/// Human-readable name of the compile-stage tag, for diagnostics.
pub fn shader_stage_name(stage: u8) -> (r: &'static str)
    ensures
        stage == 0 ==> r@ == "vertex"@,
        stage == 1 ==> r@ == "fragment"@,
        stage != 0 && stage != 1 ==> r@ == "geometry"@,
{
    if stage == 0 {
        "vertex"
    } else if stage == 1 {
        "fragment"
    } else {
        "geometry"
    }
}

/// Whether a native compile or link status report means failure: anything but
/// the native true.
pub fn stage_failed(status: i32) -> (r: bool)
    ensures
        r == (status != GL_TRUE),
{
    status != GL_TRUE
}

/// The failure flag of one whole load: it is set exactly when some compiled
/// stage or the final link reported failure.  The program handle is produced
/// either way; the caller must check the flag.
pub fn load_outcome(
    vertex_failed: bool,
    fragment_failed: bool,
    geometry_failed: Option<bool>,
    link_failed: bool,
) -> (fail: bool)
    ensures
        fail == (vertex_failed || fragment_failed || geometry_failed == Some(true)
            || link_failed),
{
    let geometry: bool = match geometry_failed {
        Some(g) => g,
        None => false,
    };
    vertex_failed || fragment_failed || geometry || link_failed
}

} // verus!
