//! Shader programs: which vertex attribute arrays to switch on and off
//! when a program becomes current, and uniform locations.
//!
//! Compiling and linking the program and every OpenGL call stand outside
//! this module; the program is held here by its id and attribute counts.

use vstd::prelude::*;

verus! {

/// A linked shader program: its id, the number of vertex attributes it
/// uses, and the number of vertex attributes the GPU has.
#[derive(Clone, Copy, Debug, PartialEq, Eq, Structural)]
pub struct ShaderProgram {
    program_id: u32,
    attrs: u32,
    total_attrs: u32,
}

/// The attribute arrays to enable, `enable_start .. enable_end`, and to
/// disable, `disable_start .. disable_end`, each an empty range when its
/// start is not below its end.
#[derive(Clone, Copy, Debug, PartialEq, Eq, Structural)]
pub struct AttribChanges {
    /// The first array to enable.
    pub enable_start: u32,
    /// One past the last array to enable.
    pub enable_end: u32,
    /// The first array to disable.
    pub disable_start: u32,
    /// One past the last array to disable.
    pub disable_end: u32,
}

/// The changes for a program with `attrs` attributes on a GPU with
/// `total` attributes, after a program with `prev` attributes (or an
/// unknown state when `prev` is `None`): enable from the previous count up
/// to this program's, disable from this program's up to the previous count
/// (or every attribute).
pub open spec fn spec_attrib_changes(attrs: u32, total: u32, prev: Option<u32>) -> AttribChanges {
    AttribChanges {
        enable_start: match prev {
            Some(p) => p,
            None => 0,
        },
        enable_end: attrs,
        disable_start: attrs,
        disable_end: match prev {
            Some(p) => p,
            None => total,
        },
    }
}

/// The set of attribute arrays enabled after applying `c` to `enabled`.
pub open spec fn spec_apply(enabled: Set<u32>, c: AttribChanges) -> Set<u32> {
    Set::new(
        |i: u32|
            (enabled.contains(i) || (c.enable_start <= i < c.enable_end)) && !(c.disable_start
                <= i < c.disable_end),
    )
}

impl ShaderProgram {
    /// The program's id.
    pub closed spec fn id(&self) -> u32 {
        self.program_id
    }

    /// The number of vertex attributes the program uses.
    pub closed spec fn attr_count(&self) -> u32 {
        self.attrs
    }

    /// The number of vertex attributes of the GPU.
    pub closed spec fn total_attr_count(&self) -> u32 {
        self.total_attrs
    }

    /// A program from its id and the counts OpenGL reports for it.
    pub fn new(program_id: u32, attrs: i32, total_attrs: i32) -> (r: Self)
        requires
            attrs >= 0,
            total_attrs >= 0,
        ensures
            r.id() == program_id,
            r.attr_count() == attrs,
            r.total_attr_count() == total_attrs,
    {
        ShaderProgram { program_id, attrs: attrs as u32, total_attrs: total_attrs as u32 }
    }

    /// The program's id.
    pub fn program_id(&self) -> (r: u32)
        ensures
            r == self.id(),
    {
        self.program_id
    }

    /// The attribute arrays to switch when this program becomes current,
    /// after a program with `prev_attribs` attributes, or from an unknown
    /// state when `prev_attribs` is `None`.
    pub fn make_current(&self, prev_attribs: Option<u32>) -> (r: AttribChanges)
        ensures
            r == spec_attrib_changes(self.attr_count(), self.total_attr_count(), prev_attribs),
    {
        let start = match prev_attribs {
            Some(p) => p,
            None => 0,
        };
        let end = match prev_attribs {
            Some(p) => p,
            None => self.total_attrs,
        };
        AttribChanges {
            enable_start: start,
            enable_end: self.attrs,
            disable_start: self.attrs,
            disable_end: end,
        }
    }
}

/// Making a program current leaves exactly its attribute arrays enabled
/// among the GPU's: from an unknown state, whatever was enabled, and after
/// another program, when exactly that program's arrays were enabled.
pub proof fn lemma_make_current_enables_exactly(
    enabled: Set<u32>,
    attrs: u32,
    total: u32,
    prev: Option<u32>,
)
    requires
        attrs <= total,
        prev matches Some(p) ==> p <= total && forall|i: u32| i < total ==> (#[trigger] enabled.contains(i) <==> i < p),
    ensures
        forall|i: u32|
            i < total ==> (#[trigger] spec_apply(enabled, spec_attrib_changes(attrs, total, prev)).contains(i) <==> i < attrs),
{
}

/// The location of a uniform variable in a shader program.
#[derive(Clone, Copy, Debug, PartialEq, Eq, Structural)]
pub struct UniformLoc {
    id: i32,
}

impl UniformLoc {
    /// The location OpenGL reported; `-1`, its answer for a name that is
    /// not found, is not a location.
    pub fn new(id: i32) -> (r: Self)
        requires
            id != -1,
        ensures
            r.loc() == id,
    {
        UniformLoc { id }
    }

    /// The location.
    pub closed spec fn loc(&self) -> i32 {
        self.id
    }

    /// The location.
    pub fn id(&self) -> (r: i32)
        ensures
            r == self.loc(),
    {
        self.id
    }
}

} // verus!
