//! Uniform variables.
//!
//! A [`UniformTable`] gathers the uniforms of a shader program. Its locations
//! are looked up by name (see
//! [`Program::get_uniform_location`](crate::program::Program::get_uniform_location));
//! a table is built only when every name was found. The integer uniforms and
//! samplers are here; the float uniforms belong to the driver.

use vstd::prelude::*;
use vstd::slice::slice_to_vec;
use vstd::std_specs::convert::FromSpecImpl;

use crate::call::{GlCall, GlOp};
use crate::names::{
    absent_at, bracketed_list, joined, lemma_missing_names_bounds, lemma_missing_names_members, missing_names,
    named_absent,
};

verus! {

/// The components of the vectors, in order.
pub open spec fn flattened<const N: usize>(rows: Seq<[i32; N]>) -> Seq<i32>
    decreases rows.len(),
{
    if rows.len() == 0 {
        Seq::empty()
    } else {
        flattened(rows.drop_last()) + rows.last()@
    }
}

/// `N` components for each vector.
pub proof fn lemma_flattened_len<const N: usize>(rows: Seq<[i32; N]>)
    ensures
        flattened(rows).len() == rows.len() * N,
    decreases rows.len(),
{
    if rows.len() > 0 {
        lemma_flattened_len(rows.drop_last());
        assert(rows.last()@.len() == N);
        assert((rows.len() - 1) * N + N == rows.len() * N) by (nonlinear_arith);
    }
}

/// The components of the vectors, in order.
pub fn flatten<const N: usize>(rows: &[[i32; N]]) -> (v: Vec<i32>)
    ensures
        v@ == flattened(rows@),
{
    let mut v: Vec<i32> = Vec::new();
    let mut i: usize = 0;
    while i < rows.len()
        invariant
            0 <= i <= rows@.len(),
            v@ == flattened(rows@.take(i as int)),
        decreases rows.len() - i,
    {
        let row = rows[i];
        let ghost base = v@;
        let mut j: usize = 0;
        while j < N
            invariant
                0 <= j <= N,
                row@.len() == N,
                v@ == base + row@.take(j as int),
            decreases N - j,
        {
            v.push(row[j]);
            j += 1;
            assert(v@ =~= base + row@.take(j as int));
        }
        assert(row@.take(N as int) =~= row@);
        assert(rows@.take(i + 1).drop_last() =~= rows@.take(i as int));
        i += 1;
    }
    assert(rows@.take(rows@.len() as int) =~= rows@);
    v
}

/// Component `j` of vector `i` is at position `i * N + j` of the
/// flattened vectors.
pub proof fn lemma_flattened_index<const N: usize>(rows: Seq<[i32; N]>, i: int, j: int)
    requires
        0 <= i < rows.len(),
        0 <= j < N,
    ensures
        0 <= i * N + j < flattened(rows).len(),
        flattened(rows)[i * N + j] == rows[i]@[j],
    decreases rows.len(),
{
    let init = rows.drop_last();
    lemma_flattened_len(rows);
    lemma_flattened_len(init);
    let n = init.len();
    assert(0 <= i * N) by (nonlinear_arith)
        requires
            0 <= i,
    ;
    assert(i * N + j < rows.len() * N) by (nonlinear_arith)
        requires
            0 <= i < rows.len(),
            0 <= j < N,
    ;
    if i < n {
        lemma_flattened_index(init, i, j);
        assert(i * N + j < n * N) by (nonlinear_arith)
            requires
                0 <= i < n,
                0 <= j < N,
        ;
        assert(init[i] == rows[i]);
    } else {
        assert(i == n);
        assert(rows.last() == rows[i]);
        assert(rows.last()@.len() == N);
    }
}

/// The call that sets `rows` as `N`-component integer vectors at `location`.
pub open spec fn uniform_iv_op<const N: usize>(location: int, rows: Seq<[i32; N]>) -> GlOp {
    GlOp::UniformIv {
        components: N as u32,
        location: location as i32,
        count: rows.len() as i32,
        values: flattened(rows),
    }
}

/// A single float uniform (`float` in GLSL).
///
/// Setting its value takes floats, which the driver handles; the location of
/// an array element is [`Uniform1fv::element_location`].
#[derive(Default, Clone, Copy, PartialEq, Eq, Debug, Structural)]
pub struct Uniform1fv(pub i32);

impl Uniform1fv {
    /// The uniform at `location`.
    pub fn new(location: i32) -> (u: Self)
        ensures
            u.0 == location,
    {
        Uniform1fv(location)
    }

    /// The raw uniform location.
    pub fn location(&self) -> (l: i32)
        ensures
            l == self.0,
    {
        self.0
    }

    /// The location that setting values from array element `offset` on starts at.
    pub fn element_location(&self, offset: usize) -> (l: i32)
        requires
            i32::MIN <= self.0 + (offset as i32) <= i32::MAX,
        ensures
            l == self.0 + (offset as i32),
    {
        self.0 + offset as i32
    }
}

/// A 2-component float vector uniform (`vec2` in GLSL).
///
/// Setting its value takes floats, which the driver handles; the location of
/// an array element is [`Uniform2fv::element_location`].
#[derive(Default, Clone, Copy, PartialEq, Eq, Debug, Structural)]
pub struct Uniform2fv(pub i32);

impl Uniform2fv {
    /// The uniform at `location`.
    pub fn new(location: i32) -> (u: Self)
        ensures
            u.0 == location,
    {
        Uniform2fv(location)
    }

    /// The raw uniform location.
    pub fn location(&self) -> (l: i32)
        ensures
            l == self.0,
    {
        self.0
    }

    /// The location that setting values from array element `offset` on starts at.
    pub fn element_location(&self, offset: usize) -> (l: i32)
        requires
            i32::MIN <= self.0 + (offset as i32) <= i32::MAX,
        ensures
            l == self.0 + (offset as i32),
    {
        self.0 + offset as i32
    }
}

/// A 3-component float vector uniform (`vec3` in GLSL).
///
/// Setting its value takes floats, which the driver handles; the location of
/// an array element is [`Uniform3fv::element_location`].
#[derive(Default, Clone, Copy, PartialEq, Eq, Debug, Structural)]
pub struct Uniform3fv(pub i32);

impl Uniform3fv {
    /// The uniform at `location`.
    pub fn new(location: i32) -> (u: Self)
        ensures
            u.0 == location,
    {
        Uniform3fv(location)
    }

    /// The raw uniform location.
    pub fn location(&self) -> (l: i32)
        ensures
            l == self.0,
    {
        self.0
    }

    /// The location that setting values from array element `offset` on starts at.
    pub fn element_location(&self, offset: usize) -> (l: i32)
        requires
            i32::MIN <= self.0 + (offset as i32) <= i32::MAX,
        ensures
            l == self.0 + (offset as i32),
    {
        self.0 + offset as i32
    }
}

/// A 4-component float vector uniform (`vec4` in GLSL).
///
/// Setting its value takes floats, which the driver handles; the location of
/// an array element is [`Uniform4fv::element_location`].
#[derive(Default, Clone, Copy, PartialEq, Eq, Debug, Structural)]
pub struct Uniform4fv(pub i32);

impl Uniform4fv {
    /// The uniform at `location`.
    pub fn new(location: i32) -> (u: Self)
        ensures
            u.0 == location,
    {
        Uniform4fv(location)
    }

    /// The raw uniform location.
    pub fn location(&self) -> (l: i32)
        ensures
            l == self.0,
    {
        self.0
    }

    /// The location that setting values from array element `offset` on starts at.
    pub fn element_location(&self, offset: usize) -> (l: i32)
        requires
            i32::MIN <= self.0 + (offset as i32) <= i32::MAX,
        ensures
            l == self.0 + (offset as i32),
    {
        self.0 + offset as i32
    }
}

/// A 2x2 matrix uniform (`mat2` in GLSL).
///
/// Setting its value takes floats, which the driver handles; the location of
/// an array element is [`UniformMatrix2fv::element_location`].
#[derive(Default, Clone, Copy, PartialEq, Eq, Debug, Structural)]
pub struct UniformMatrix2fv(pub i32);

impl UniformMatrix2fv {
    /// The uniform at `location`.
    pub fn new(location: i32) -> (u: Self)
        ensures
            u.0 == location,
    {
        UniformMatrix2fv(location)
    }

    /// The raw uniform location.
    pub fn location(&self) -> (l: i32)
        ensures
            l == self.0,
    {
        self.0
    }

    /// The location that setting values from array element `offset` on starts at.
    pub fn element_location(&self, offset: usize) -> (l: i32)
        requires
            i32::MIN <= self.0 + (offset as i32) <= i32::MAX,
        ensures
            l == self.0 + (offset as i32),
    {
        self.0 + offset as i32
    }
}

/// A 3x3 matrix uniform (`mat3` in GLSL).
///
/// Setting its value takes floats, which the driver handles; the location of
/// an array element is [`UniformMatrix3fv::element_location`].
#[derive(Default, Clone, Copy, PartialEq, Eq, Debug, Structural)]
pub struct UniformMatrix3fv(pub i32);

impl UniformMatrix3fv {
    /// The uniform at `location`.
    pub fn new(location: i32) -> (u: Self)
        ensures
            u.0 == location,
    {
        UniformMatrix3fv(location)
    }

    /// The raw uniform location.
    pub fn location(&self) -> (l: i32)
        ensures
            l == self.0,
    {
        self.0
    }

    /// The location that setting values from array element `offset` on starts at.
    pub fn element_location(&self, offset: usize) -> (l: i32)
        requires
            i32::MIN <= self.0 + (offset as i32) <= i32::MAX,
        ensures
            l == self.0 + (offset as i32),
    {
        self.0 + offset as i32
    }
}

/// A 4x4 matrix uniform (`mat4` in GLSL).
///
/// Setting its value takes floats, which the driver handles; the location of
/// an array element is [`UniformMatrix4fv::element_location`].
#[derive(Default, Clone, Copy, PartialEq, Eq, Debug, Structural)]
pub struct UniformMatrix4fv(pub i32);

impl UniformMatrix4fv {
    /// The uniform at `location`.
    pub fn new(location: i32) -> (u: Self)
        ensures
            u.0 == location,
    {
        UniformMatrix4fv(location)
    }

    /// The raw uniform location.
    pub fn location(&self) -> (l: i32)
        ensures
            l == self.0,
    {
        self.0
    }

    /// The location that setting values from array element `offset` on starts at.
    pub fn element_location(&self, offset: usize) -> (l: i32)
        requires
            i32::MIN <= self.0 + (offset as i32) <= i32::MAX,
        ensures
            l == self.0 + (offset as i32),
    {
        self.0 + offset as i32
    }
}

/// A single integer uniform (`int` in GLSL).
#[derive(Default, Clone, Copy, PartialEq, Eq, Debug, Structural)]
pub struct Uniform1iv(pub i32);

impl Uniform1iv {
    /// The uniform at `location`.
    pub fn new(location: i32) -> (u: Self)
        ensures
            u.0 == location,
    {
        Uniform1iv(location)
    }

    /// The raw uniform location.
    pub fn location(&self) -> (l: i32)
        ensures
            l == self.0,
    {
        self.0
    }

    /// The call that sets the value.
    pub fn set(&self, to: i32) -> (c: GlCall)
        ensures
            c.deep_view() == (GlOp::UniformIv { components: 1, location: self.0, count: 1, values: seq![to] }),
    {
        let mut values = Vec::new();
        values.push(to);
        GlCall::UniformIv { components: 1, location: self.0, count: 1, values }
    }

    /// The call that sets consecutive values of an array uniform.
    pub fn set_multi(&self, to: &[i32]) -> (c: GlCall)
        ensures
            c.deep_view() == (GlOp::UniformIv {
                components: 1,
                location: self.0,
                count: to@.len() as i32,
                values: to@,
            }),
    {
        self.set_subrange(0, to)
    }

    /// The call that sets values of an array uniform from element `offset` on.
    pub fn set_subrange(&self, offset: usize, to: &[i32]) -> (c: GlCall)
        requires
            i32::MIN <= self.0 + (offset as i32) <= i32::MAX,
        ensures
            c.deep_view() == (GlOp::UniformIv {
                components: 1,
                location: (self.0 + (offset as i32)) as i32,
                count: to@.len() as i32,
                values: to@,
            }),
    {
        let values = slice_to_vec(to);
        GlCall::UniformIv {
            components: 1,
            location: self.0 + offset as i32,
            count: to.len() as i32,
            values,
        }
    }
}

/// A 2-component integer vector uniform (`ivec2` in GLSL).
#[derive(Default, Clone, Copy, PartialEq, Eq, Debug, Structural)]
pub struct Uniform2iv(pub i32);

/// A 3-component integer vector uniform (`ivec3` in GLSL).
#[derive(Default, Clone, Copy, PartialEq, Eq, Debug, Structural)]
pub struct Uniform3iv(pub i32);

/// A 4-component integer vector uniform (`ivec4` in GLSL).
#[derive(Default, Clone, Copy, PartialEq, Eq, Debug, Structural)]
pub struct Uniform4iv(pub i32);

impl Uniform2iv {
    /// The uniform at `location`.
    pub fn new(location: i32) -> (u: Self)
        ensures
            u.0 == location,
    {
        Uniform2iv(location)
    }

    /// The raw uniform location.
    pub fn location(&self) -> (l: i32)
        ensures
            l == self.0,
    {
        self.0
    }

    /// The call that sets the value.
    pub fn set(&self, to: [i32; 2]) -> (c: GlCall)
        ensures
            c.deep_view() == uniform_iv_op(self.0 as int, seq![to]),
    {
        let rows = [to];
        assert(rows@ =~= seq![to]);
        self.set_multi(rows.as_slice())
    }

    /// The call that sets consecutive values of an array uniform.
    pub fn set_multi(&self, to: &[[i32; 2]]) -> (c: GlCall)
        ensures
            c.deep_view() == uniform_iv_op(self.0 as int, to@),
    {
        self.set_subrange(0, to)
    }

    /// The call that sets values of an array uniform from element `offset` on.
    pub fn set_subrange(&self, offset: usize, to: &[[i32; 2]]) -> (c: GlCall)
        requires
            i32::MIN <= self.0 + (offset as i32) <= i32::MAX,
        ensures
            c.deep_view() == uniform_iv_op(self.0 + (offset as i32), to@),
    {
        GlCall::UniformIv {
            components: 2,
            location: self.0 + offset as i32,
            count: to.len() as i32,
            values: flatten(to),
        }
    }
}

impl Uniform3iv {
    /// The uniform at `location`.
    pub fn new(location: i32) -> (u: Self)
        ensures
            u.0 == location,
    {
        Uniform3iv(location)
    }

    /// The raw uniform location.
    pub fn location(&self) -> (l: i32)
        ensures
            l == self.0,
    {
        self.0
    }

    /// The call that sets the value.
    pub fn set(&self, to: [i32; 3]) -> (c: GlCall)
        ensures
            c.deep_view() == uniform_iv_op(self.0 as int, seq![to]),
    {
        let rows = [to];
        assert(rows@ =~= seq![to]);
        self.set_multi(rows.as_slice())
    }

    /// The call that sets consecutive values of an array uniform.
    pub fn set_multi(&self, to: &[[i32; 3]]) -> (c: GlCall)
        ensures
            c.deep_view() == uniform_iv_op(self.0 as int, to@),
    {
        self.set_subrange(0, to)
    }

    /// The call that sets values of an array uniform from element `offset` on.
    pub fn set_subrange(&self, offset: usize, to: &[[i32; 3]]) -> (c: GlCall)
        requires
            i32::MIN <= self.0 + (offset as i32) <= i32::MAX,
        ensures
            c.deep_view() == uniform_iv_op(self.0 + (offset as i32), to@),
    {
        GlCall::UniformIv {
            components: 3,
            location: self.0 + offset as i32,
            count: to.len() as i32,
            values: flatten(to),
        }
    }
}

impl Uniform4iv {
    /// The uniform at `location`.
    pub fn new(location: i32) -> (u: Self)
        ensures
            u.0 == location,
    {
        Uniform4iv(location)
    }

    /// The raw uniform location.
    pub fn location(&self) -> (l: i32)
        ensures
            l == self.0,
    {
        self.0
    }

    /// The call that sets the value.
    pub fn set(&self, to: [i32; 4]) -> (c: GlCall)
        ensures
            c.deep_view() == uniform_iv_op(self.0 as int, seq![to]),
    {
        let rows = [to];
        assert(rows@ =~= seq![to]);
        self.set_multi(rows.as_slice())
    }

    /// The call that sets consecutive values of an array uniform.
    pub fn set_multi(&self, to: &[[i32; 4]]) -> (c: GlCall)
        ensures
            c.deep_view() == uniform_iv_op(self.0 as int, to@),
    {
        self.set_subrange(0, to)
    }

    /// The call that sets values of an array uniform from element `offset` on.
    pub fn set_subrange(&self, offset: usize, to: &[[i32; 4]]) -> (c: GlCall)
        requires
            i32::MIN <= self.0 + (offset as i32) <= i32::MAX,
        ensures
            c.deep_view() == uniform_iv_op(self.0 + (offset as i32), to@),
    {
        GlCall::UniformIv {
            components: 4,
            location: self.0 + offset as i32,
            count: to.len() as i32,
            values: flatten(to),
        }
    }
}

/// Setting `ivec2` values from array element `offset` on makes one call of
/// 2 components per vector, at the element's location (the uniform's
/// location plus `offset`), for as many vectors as given, whose values are
/// the vectors' components in order: component `j` of vector `i` at position
/// `2 * i + j`. Setting them from the first element uses the uniform's own
/// location.
pub proof fn law_uniform2iv_layout(u: Uniform2iv, offset: usize, to: &[[i32; 2]], c: GlCall, multi: GlCall)
    requires
        i32::MIN <= u.0 + (offset as i32) <= i32::MAX,
        call_ensures(Uniform2iv::set_subrange, (&u, offset, to), c),
        call_ensures(Uniform2iv::set_multi, (&u, to), multi),
    ensures
        c.deep_view() matches GlOp::UniformIv { components, location, count, values } && components == 2
            && location == u.0 + (offset as i32) && count == to@.len() as i32 && values.len() == 2 * to@.len()
            && forall|i: int, j: int|
            0 <= i < to@.len() && 0 <= j < 2 ==> values[2 * i + j] == #[trigger] to@[i]@[j],
        multi.deep_view() matches GlOp::UniformIv { components, location, count, values } && components == 2
            && location == u.0 && count == to@.len() as i32 && values == c.deep_view()->UniformIv_values,
{
    lemma_flattened_len(to@);
    assert forall|i: int, j: int| 0 <= i < to@.len() && 0 <= j < 2 implies flattened(to@)[2 * i + j] == #[trigger] to@[i]@[j] by {
        lemma_flattened_index(to@, i, j);
    }
}

/// Setting `ivec3` values from array element `offset` on makes one call of
/// 3 components per vector, at the element's location (the uniform's
/// location plus `offset`), for as many vectors as given, whose values are
/// the vectors' components in order: component `j` of vector `i` at position
/// `3 * i + j`. Setting them from the first element uses the uniform's own
/// location.
pub proof fn law_uniform3iv_layout(u: Uniform3iv, offset: usize, to: &[[i32; 3]], c: GlCall, multi: GlCall)
    requires
        i32::MIN <= u.0 + (offset as i32) <= i32::MAX,
        call_ensures(Uniform3iv::set_subrange, (&u, offset, to), c),
        call_ensures(Uniform3iv::set_multi, (&u, to), multi),
    ensures
        c.deep_view() matches GlOp::UniformIv { components, location, count, values } && components == 3
            && location == u.0 + (offset as i32) && count == to@.len() as i32 && values.len() == 3 * to@.len()
            && forall|i: int, j: int|
            0 <= i < to@.len() && 0 <= j < 3 ==> values[3 * i + j] == #[trigger] to@[i]@[j],
        multi.deep_view() matches GlOp::UniformIv { components, location, count, values } && components == 3
            && location == u.0 && count == to@.len() as i32 && values == c.deep_view()->UniformIv_values,
{
    lemma_flattened_len(to@);
    assert forall|i: int, j: int| 0 <= i < to@.len() && 0 <= j < 3 implies flattened(to@)[3 * i + j] == #[trigger] to@[i]@[j] by {
        lemma_flattened_index(to@, i, j);
    }
}

/// Setting `ivec4` values from array element `offset` on makes one call of
/// 4 components per vector, at the element's location (the uniform's
/// location plus `offset`), for as many vectors as given, whose values are
/// the vectors' components in order: component `j` of vector `i` at position
/// `4 * i + j`. Setting them from the first element uses the uniform's own
/// location.
pub proof fn law_uniform4iv_layout(u: Uniform4iv, offset: usize, to: &[[i32; 4]], c: GlCall, multi: GlCall)
    requires
        i32::MIN <= u.0 + (offset as i32) <= i32::MAX,
        call_ensures(Uniform4iv::set_subrange, (&u, offset, to), c),
        call_ensures(Uniform4iv::set_multi, (&u, to), multi),
    ensures
        c.deep_view() matches GlOp::UniformIv { components, location, count, values } && components == 4
            && location == u.0 + (offset as i32) && count == to@.len() as i32 && values.len() == 4 * to@.len()
            && forall|i: int, j: int|
            0 <= i < to@.len() && 0 <= j < 4 ==> values[4 * i + j] == #[trigger] to@[i]@[j],
        multi.deep_view() matches GlOp::UniformIv { components, location, count, values } && components == 4
            && location == u.0 && count == to@.len() as i32 && values == c.deep_view()->UniformIv_values,
{
    lemma_flattened_len(to@);
    assert forall|i: int, j: int| 0 <= i < to@.len() && 0 <= j < 4 implies flattened(to@)[4 * i + j] == #[trigger] to@[i]@[j] by {
        lemma_flattened_index(to@, i, j);
    }
}

/// A sampler uniform: the texture unit a sampler reads from.
#[derive(Default, Clone, Copy, PartialEq, Eq, Debug, Structural)]
pub struct Sampler2D(pub i32);

impl Sampler2D {
    /// The sampler at `location`.
    pub fn new(location: i32) -> (u: Self)
        ensures
            u.0 == location,
    {
        Sampler2D(location)
    }

    /// The raw uniform location.
    pub fn location(&self) -> (l: i32)
        ensures
            l == self.0,
    {
        self.0
    }

    /// The call that makes the sampler read from texture unit `unit`.
    pub fn set(&self, unit: i32) -> (c: GlCall)
        ensures
            c.deep_view() == (GlOp::Uniform1i { location: self.0, value: unit }),
    {
        GlCall::Uniform1i { location: self.0, value: unit }
    }
}

/// The uniforms that a shader program lacks.
#[derive(Debug)]
pub struct MissingUniforms(pub Vec<&'static str>);

impl MissingUniforms {
    /// The error as it displays: `Missing uniforms: [a, b]`.
    pub fn to_string(&self) -> (s: String)
        ensures
            s@ == "Missing uniforms: "@ + "["@ + joined(self.0@) + "]"@,
    {
        bracketed_list("Missing uniforms: ", &self.0)
    }
}

impl From<Vec<&'static str>> for MissingUniforms {
    fn from(names: Vec<&'static str>) -> (m: Self) {
        MissingUniforms(names)
    }
}

impl FromSpecImpl<Vec<&'static str>> for MissingUniforms {
    open spec fn obeys_from_spec() -> bool {
        true
    }

    open spec fn from_spec(names: Vec<&'static str>) -> MissingUniforms {
        MissingUniforms(names)
    }
}

/// A uniform location that was not found: -1.
pub open spec fn uniform_absent() -> spec_fn(i32) -> bool {
    |l: i32| l == -1
}

/// Looks up the uniforms of `names` in the locations that the GL returned
/// for them, in the same order: the names whose location is missing or -1 are
/// the error, in order; if there is none, the locations are the uniforms'.
pub fn resolve_uniforms(names: &Vec<&'static str>, locations: &Vec<i32>) -> (r: Result<Vec<i32>, MissingUniforms>)
    ensures
        missing_names(names@, locations@, uniform_absent()).len() > 0 ==> (r matches Err(e) && e.0@
            == missing_names(names@, locations@, uniform_absent())),
        missing_names(names@, locations@, uniform_absent()).len() == 0 ==> (r matches Ok(found)
            && found@ == locations@.take(names@.len() as int)),
{
    let mut missing: Vec<&'static str> = Vec::new();
    let mut i: usize = 0;
    while i < names.len()
        invariant
            0 <= i <= names.len(),
            missing@ == missing_names(names@.take(i as int), locations@, uniform_absent()),
        decreases names.len() - i,
    {
        assert(names@.take(i + 1).drop_last() =~= names@.take(i as int));
        if i >= locations.len() || locations[i] == -1 {
            missing.push(names[i]);
        }
        i += 1;
    }
    assert(names@.take(names.len() as int) =~= names@);
    if missing.len() > 0 {
        return Err(MissingUniforms(missing));
    }
    proof {
        lemma_missing_names_bounds(names@, locations@, uniform_absent());
    }
    let mut found: Vec<i32> = Vec::new();
    let mut j: usize = 0;
    while j < names.len()
        invariant
            0 <= j <= names.len(),
            names.len() <= locations.len(),
            found@ == locations@.take(j as int),
        decreases names.len() - j,
    {
        found.push(locations[j]);
        j += 1;
        assert(found@ =~= locations@.take(j as int));
    }
    Ok(found)
}

/// Resolving the uniforms of `names` succeeds exactly when every name has
/// a location other than -1, and then gives the locations of the names, in order. Otherwise the error lists
/// exactly the names that lack one: each listed name is the name at a
/// position without such a location, and the name at each such position is
/// listed.
pub proof fn law_resolve_uniforms(names: &Vec<&'static str>, locations: &Vec<i32>, r: Result<Vec<i32>, MissingUniforms>)
    requires
        call_ensures(resolve_uniforms, (names, locations), r),
    ensures
        r is Ok <==> (names@.len() <= locations@.len() && forall|i: int|
            0 <= i < names@.len() ==> !(#[trigger] locations@[i] == -1)),
        r matches Ok(found) ==> found@ == locations@.take(names@.len() as int),
        r matches Err(e) ==> forall|k: int|
            0 <= k < e.0@.len() ==> named_absent(names@, locations@, |l: i32| l == -1, #[trigger] e.0@[k]),
        r matches Err(e) ==> forall|i: int|
            0 <= i < names@.len() && (i >= locations@.len() || locations@[i] == -1) ==> e.0@.contains(#[trigger] names@[i]),
{
    assert(uniform_absent() =~= (|l: i32| l == -1));
    lemma_missing_names_bounds(names@, locations@, uniform_absent());
    lemma_missing_names_members(names@, locations@, uniform_absent());
    assert forall|i: int| 0 <= i < names@.len() && (i >= locations@.len() || locations@[i] == -1) implies missing_names(
        names@,
        locations@,
        uniform_absent(),
    ).contains(#[trigger] names@[i]) by {
        assert(absent_at(names@, locations@, uniform_absent(), i));
    }
}

/// A table of the uniforms of a shader program, such as the `uniform_table!`
/// macro defines.
pub trait UniformTable: Sized {
    /// The names of the uniforms in the shader, in declaration order.
    fn names() -> Vec<&'static str>;

    /// The table of these uniform locations, one for each name, in the same order.
    fn from_locations(locations: Vec<i32>) -> Self;
}

/// `r` is what [`uniform_table_from`] gives for `locations`: for the names
/// that `T` declares, the error naming each one not found, or the table that
/// `T` builds from the locations.
pub open spec fn uniform_table_result<T: UniformTable>(locations: Seq<i32>, r: Result<T, MissingUniforms>) -> bool {
    exists|names: Vec<&'static str>|
        #![trigger call_ensures(T::names, (), names)]
        call_ensures(T::names, (), names) && {
            let missing = missing_names(names@, locations, uniform_absent());
            &&& missing.len() > 0 ==> (r matches Err(e) && e.0@ == missing)
            &&& missing.len() == 0 ==> (r matches Ok(t) && exists|found: Vec<i32>|
                found@ == locations.take(names@.len() as int) && call_ensures(
                    T::from_locations,
                    (found,),
                    t,
                ))
        }
}

/// The table `T` from the locations that the GL returned for its names, in
/// order: an error naming each uniform that was not found, or the table
/// built from the locations.
pub fn uniform_table_from<T: UniformTable>(locations: &Vec<i32>) -> (r: Result<T, MissingUniforms>)
    ensures
        uniform_table_result(locations@, r),
{
    let names = T::names();
    match resolve_uniforms(&names, locations) {
        Ok(found) => Ok(T::from_locations(found)),
        Err(e) => Err(e),
    }
}

} // verus!
