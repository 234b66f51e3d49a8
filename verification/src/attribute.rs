//! Vertex attribute configuration.
//!
//! An [`AttributeTable`] gathers the attributes of a shader program. Its
//! locations are looked up by name (see
//! [`Program::get_attrib_location`](crate::program::Program::get_attrib_location));
//! a table is built only when every name was found.

use vstd::prelude::*;
use vstd::std_specs::convert::FromSpecImpl;

use crate::call::{GlCall, GlOp};
use crate::glenum;
use crate::names::{
    absent_at, bracketed_list, joined, lemma_missing_names_bounds, lemma_missing_names_members, missing_names,
    named_absent,
};

verus! {

/// A vertex attribute location in a shader program.
#[derive(Clone, Copy, PartialEq, Eq, Hash, Default, Debug, Structural)]
pub struct Attribute(pub u32);

impl Attribute {
    /// The attribute at `location`.
    pub fn new(location: u32) -> (a: Self)
        ensures
            a.0 == location,
    {
        Attribute(location)
    }

    /// The raw attribute location.
    pub fn location(&self) -> (l: u32)
        ensures
            l == self.0,
    {
        self.0
    }

    /// The call that sets the attribute divisor for instanced rendering:
    /// 0 advances per vertex, 1 per instance (vitaGL knows no others).
    pub fn divisor(&self, divisor: u32) -> (c: GlCall)
        ensures
            c.deep_view() == (GlOp::VertexAttribDivisor { index: self.0, divisor }),
    {
        GlCall::VertexAttribDivisor { index: self.0, divisor }
    }

    /// The call that enables this vertex attribute array.
    pub fn enable(&self) -> (c: GlCall)
        ensures
            c.deep_view() == enable_op(*self),
    {
        GlCall::EnableVertexAttribArray { index: self.0 }
    }

    /// The call that disables this vertex attribute array.
    pub fn disable(&self) -> (c: GlCall)
        ensures
            c.deep_view() == disable_op(*self),
    {
        GlCall::DisableVertexAttribArray { index: self.0 }
    }

    /// The call that points this attribute at data of `format` in the buffer
    /// bound to `GL_ARRAY_BUFFER`, `stride` bytes apart (0: tightly packed),
    /// starting `offset` bytes in.
    pub fn pointer(&self, format: AttributeFormat, stride: i32, offset: usize) -> (c: GlCall)
        ensures
            c.deep_view() == pointer_op(*self, format, stride, offset),
    {
        GlCall::VertexAttribPointer {
            index: self.0,
            size: format.size.components(),
            type_: format.type_.gl_enum(),
            normalized: if format.normalized {
                glenum::TRUE
            } else {
                glenum::FALSE
            },
            stride,
            offset,
        }
    }
}

/// The call that enables attribute `a`.
pub open spec fn enable_op(a: Attribute) -> GlOp {
    GlOp::EnableVertexAttribArray { index: a.0 }
}

/// The call that disables attribute `a`.
pub open spec fn disable_op(a: Attribute) -> GlOp {
    GlOp::DisableVertexAttribArray { index: a.0 }
}

/// The call that points attribute `a` at data of `format`.
pub open spec fn pointer_op(a: Attribute, format: AttributeFormat, stride: i32, offset: usize) -> GlOp {
    GlOp::VertexAttribPointer {
        index: a.0,
        size: components_of(format.size),
        type_: attribute_type_enum(format.type_),
        normalized: if format.normalized {
            glenum::TRUE
        } else {
            glenum::FALSE
        },
        stride,
        offset,
    }
}

/// Number of components in a vertex attribute.
#[derive(Clone, Copy, PartialEq, Eq, Hash, Debug, Structural)]
pub enum AttributeSize {
    /// 1 component (scalar)
    One,
    /// 2 components (vec2)
    Two,
    /// 3 components (vec3)
    Three,
    /// 4 components (vec4)
    Four,
}

pub open spec fn components_of(s: AttributeSize) -> i32 {
    match s {
        AttributeSize::One => 1,
        AttributeSize::Two => 2,
        AttributeSize::Three => 3,
        AttributeSize::Four => 4,
    }
}

impl AttributeSize {
    /// The number of components.
    pub fn components(&self) -> (n: i32)
        ensures
            n == components_of(*self),
    {
        match self {
            AttributeSize::One => 1,
            AttributeSize::Two => 2,
            AttributeSize::Three => 3,
            AttributeSize::Four => 4,
        }
    }
}

/// Enabling or disabling an attribute makes one call for that attribute's
/// index: `glEnableVertexAttribArray` or `glDisableVertexAttribArray`.
pub proof fn law_enable_disable(a: Attribute, on: GlCall, off: GlCall)
    requires
        call_ensures(Attribute::enable, (&a,), on),
        call_ensures(Attribute::disable, (&a,), off),
    ensures
        on.deep_view() == (GlOp::EnableVertexAttribArray { index: a.0 }),
        off.deep_view() == (GlOp::DisableVertexAttribArray { index: a.0 }),
{
}

/// An attribute size has one to four components, one more for each step
/// from `One` to `Four`.
pub proof fn law_components_count(s: AttributeSize, n: i32)
    requires
        call_ensures(AttributeSize::components, (&s,), n),
    ensures
        1 <= n <= 4,
        s == AttributeSize::One <==> n == 1,
        s == AttributeSize::Two <==> n == 2,
        s == AttributeSize::Three <==> n == 3,
        s == AttributeSize::Four <==> n == 4,
{
}

/// The pointer call of an attribute reads, for that attribute, as many
/// components as the format has (1 to 4), of the format's GL type, normalized
/// exactly when the format says so, `stride` bytes apart from `offset` on.
pub proof fn law_pointer_reads_format(a: Attribute, format: AttributeFormat, stride: i32, offset: usize, c: GlCall)
    requires
        call_ensures(Attribute::pointer, (&a, format, stride, offset), c),
    ensures
        c.deep_view() matches GlOp::VertexAttribPointer { index, size, type_, normalized, stride: st, offset: off }
            && index == a.0 && st == stride && off == offset
            && (format.size == AttributeSize::One ==> size == 1)
            && (format.size == AttributeSize::Two ==> size == 2)
            && (format.size == AttributeSize::Three ==> size == 3)
            && (format.size == AttributeSize::Four ==> size == 4)
            && (format.type_ == AttributeType::Byte ==> type_ == glenum::BYTE)
            && (format.type_ == AttributeType::UnsignedByte ==> type_ == glenum::UNSIGNED_BYTE)
            && (format.type_ == AttributeType::Short ==> type_ == glenum::SHORT)
            && (format.type_ == AttributeType::UnsignedShort ==> type_ == glenum::UNSIGNED_SHORT)
            && (format.type_ == AttributeType::Fixed ==> type_ == glenum::FIXED)
            && (format.type_ == AttributeType::Float ==> type_ == glenum::FLOAT)
            && (normalized == glenum::TRUE <==> format.normalized)
            && (normalized == glenum::FALSE <==> !format.normalized),
{
}

/// Data type of vertex attribute components.
#[derive(Clone, Copy, PartialEq, Eq, Hash, Debug, Structural)]
pub enum AttributeType {
    /// Signed byte (-128 to 127)
    Byte,
    /// Unsigned byte (0 to 255)
    UnsignedByte,
    /// Signed short (-32768 to 32767)
    Short,
    /// Unsigned short (0 to 65535)
    UnsignedShort,
    /// Fixed-point (16.16)
    Fixed,
    /// 32-bit float
    Float,
}

pub open spec fn attribute_type_enum(t: AttributeType) -> u32 {
    match t {
        AttributeType::Byte => glenum::BYTE,
        AttributeType::UnsignedByte => glenum::UNSIGNED_BYTE,
        AttributeType::Short => glenum::SHORT,
        AttributeType::UnsignedShort => glenum::UNSIGNED_SHORT,
        AttributeType::Fixed => glenum::FIXED,
        AttributeType::Float => glenum::FLOAT,
    }
}

impl AttributeType {
    /// The GL enumerant of this type.
    pub fn gl_enum(&self) -> (e: u32)
        ensures
            e == attribute_type_enum(*self),
    {
        match self {
            AttributeType::Byte => glenum::BYTE,
            AttributeType::UnsignedByte => glenum::UNSIGNED_BYTE,
            AttributeType::Short => glenum::SHORT,
            AttributeType::UnsignedShort => glenum::UNSIGNED_SHORT,
            AttributeType::Fixed => glenum::FIXED,
            AttributeType::Float => glenum::FLOAT,
        }
    }
}

/// How vertex data of an attribute is read.
#[derive(Clone, Copy, PartialEq, Eq, Hash, Debug, Structural)]
pub struct AttributeFormat {
    /// Number of components (1-4)
    pub size: AttributeSize,
    /// Data type of each component
    pub type_: AttributeType,
    /// Whether integer values are normalized to [0,1] or [-1,1]
    pub normalized: bool,
}

/// The common formats. (These are functions: a constant cannot hold a struct here.)
impl AttributeFormat {
    /// Float scalar (1 component)
    #[allow(non_snake_case)]
    pub fn FLOAT1() -> (f: AttributeFormat)
        ensures
            f == (AttributeFormat { size: AttributeSize::One, type_: AttributeType::Float, normalized: false }),
    {
        AttributeFormat { size: AttributeSize::One, type_: AttributeType::Float, normalized: false }
    }

    /// Float vec2 (2 components)
    #[allow(non_snake_case)]
    pub fn FLOAT2() -> (f: AttributeFormat)
        ensures
            f == (AttributeFormat { size: AttributeSize::Two, type_: AttributeType::Float, normalized: false }),
    {
        AttributeFormat { size: AttributeSize::Two, type_: AttributeType::Float, normalized: false }
    }

    /// Float vec3 (3 components)
    #[allow(non_snake_case)]
    pub fn FLOAT3() -> (f: AttributeFormat)
        ensures
            f == (AttributeFormat { size: AttributeSize::Three, type_: AttributeType::Float, normalized: false }),
    {
        AttributeFormat { size: AttributeSize::Three, type_: AttributeType::Float, normalized: false }
    }

    /// Float vec4 (4 components)
    #[allow(non_snake_case)]
    pub fn FLOAT4() -> (f: AttributeFormat)
        ensures
            f == (AttributeFormat { size: AttributeSize::Four, type_: AttributeType::Float, normalized: false }),
    {
        AttributeFormat { size: AttributeSize::Four, type_: AttributeType::Float, normalized: false }
    }

    /// Unsigned byte vec4, normalized (e.g., for RGBA colors as u32)
    #[allow(non_snake_case)]
    pub fn UBYTE4_NORM() -> (f: AttributeFormat)
        ensures
            f == (AttributeFormat { size: AttributeSize::Four, type_: AttributeType::UnsignedByte, normalized: true }),
    {
        AttributeFormat { size: AttributeSize::Four, type_: AttributeType::UnsignedByte, normalized: true }
    }

    /// Unsigned short vec2, normalized (e.g., for texture coordinates)
    #[allow(non_snake_case)]
    pub fn USHORT2_NORM() -> (f: AttributeFormat)
        ensures
            f == (AttributeFormat { size: AttributeSize::Two, type_: AttributeType::UnsignedShort, normalized: true }),
    {
        AttributeFormat { size: AttributeSize::Two, type_: AttributeType::UnsignedShort, normalized: true }
    }
}

/// The attributes that a shader program lacks.
#[derive(Debug)]
pub struct MissingAttributes(pub Vec<&'static str>);

impl MissingAttributes {
    /// The error as it displays: `Missing attributes: [a, b]`.
    pub fn to_string(&self) -> (s: String)
        ensures
            s@ == "Missing attributes: "@ + "["@ + joined(self.0@) + "]"@,
    {
        bracketed_list("Missing attributes: ", &self.0)
    }
}

impl From<Vec<&'static str>> for MissingAttributes {
    fn from(names: Vec<&'static str>) -> (m: Self) {
        MissingAttributes(names)
    }
}

impl FromSpecImpl<Vec<&'static str>> for MissingAttributes {
    open spec fn obeys_from_spec() -> bool {
        true
    }

    open spec fn from_spec(names: Vec<&'static str>) -> MissingAttributes {
        MissingAttributes(names)
    }
}

/// An attribute location that was not found: a negative one.
pub open spec fn attribute_absent() -> spec_fn(i32) -> bool {
    |l: i32| l < 0
}

/// The attributes of the names, from their locations, when none is missing.
pub open spec fn attributes_of(locations: Seq<i32>, n: nat) -> Seq<Attribute> {
    Seq::new(n, |i: int| Attribute(locations[i] as u32))
}

/// Looks up the attributes of `names` in the locations that the GL returned
/// for them, in the same order: the names whose location is missing or
/// negative are the error, in order; if there is none, each location is the
/// attribute of its name.
pub fn resolve_attributes(names: &Vec<&'static str>, locations: &Vec<i32>) -> (r: Result<
    Vec<Attribute>,
    MissingAttributes,
>)
    ensures
        missing_names(names@, locations@, attribute_absent()).len() > 0 ==> (r matches Err(e) && e.0@
            == missing_names(names@, locations@, attribute_absent())),
        missing_names(names@, locations@, attribute_absent()).len() == 0 ==> (r matches Ok(attrs)
            && attrs@ == attributes_of(locations@, names@.len())),
{
    let mut missing: Vec<&'static str> = Vec::new();
    let mut i: usize = 0;
    while i < names.len()
        invariant
            0 <= i <= names.len(),
            missing@ == missing_names(names@.take(i as int), locations@, attribute_absent()),
        decreases names.len() - i,
    {
        assert(names@.take(i + 1).drop_last() =~= names@.take(i as int));
        if i >= locations.len() || locations[i] < 0 {
            missing.push(names[i]);
        }
        i += 1;
    }
    assert(names@.take(names.len() as int) =~= names@);
    if missing.len() > 0 {
        return Err(MissingAttributes(missing));
    }
    proof {
        lemma_missing_names_bounds(names@, locations@, attribute_absent());
    }
    let mut attrs: Vec<Attribute> = Vec::new();
    let mut j: usize = 0;
    while j < names.len()
        invariant
            0 <= j <= names.len(),
            names.len() <= locations.len(),
            attrs@ == attributes_of(locations@, j as nat),
        decreases names.len() - j,
    {
        attrs.push(Attribute(locations[j] as u32));
        j += 1;
        assert(attrs@ =~= attributes_of(locations@, j as nat));
    }
    Ok(attrs)
}

/// Resolving the attributes of `names` succeeds exactly when every name has
/// a location that is not negative, and then gives the attribute at the location of each name, in order. Otherwise the error lists
/// exactly the names that lack one: each listed name is the name at a
/// position without such a location, and the name at each such position is
/// listed.
pub proof fn law_resolve_attributes(names: &Vec<&'static str>, locations: &Vec<i32>, r: Result<Vec<Attribute>, MissingAttributes>)
    requires
        call_ensures(resolve_attributes, (names, locations), r),
    ensures
        r is Ok <==> (names@.len() <= locations@.len() && forall|i: int|
            0 <= i < names@.len() ==> !(#[trigger] locations@[i] < 0)),
        r matches Ok(found) ==> found@.len() == names@.len() && forall|i: int|
            0 <= i < names@.len() ==> (#[trigger] found@[i]).0 == locations@[i] as u32,
        r matches Err(e) ==> forall|k: int|
            0 <= k < e.0@.len() ==> named_absent(names@, locations@, |l: i32| l < 0, #[trigger] e.0@[k]),
        r matches Err(e) ==> forall|i: int|
            0 <= i < names@.len() && (i >= locations@.len() || locations@[i] < 0) ==> e.0@.contains(#[trigger] names@[i]),
{
    assert(attribute_absent() =~= (|l: i32| l < 0));
    lemma_missing_names_bounds(names@, locations@, attribute_absent());
    lemma_missing_names_members(names@, locations@, attribute_absent());
    assert forall|i: int| 0 <= i < names@.len() && (i >= locations@.len() || locations@[i] < 0) implies missing_names(
        names@,
        locations@,
        attribute_absent(),
    ).contains(#[trigger] names@[i]) by {
        assert(absent_at(names@, locations@, attribute_absent(), i));
    }
}

/// The calls that enable each attribute, in order.
pub fn enable_calls(attributes: &Vec<Attribute>) -> (calls: Vec<GlCall>)
    ensures
        calls.deep_view() == attributes@.map_values(|a: Attribute| enable_op(a)),
{
    let mut calls = Vec::new();
    let mut i: usize = 0;
    while i < attributes.len()
        invariant
            0 <= i <= attributes.len(),
            calls.deep_view() == attributes@.take(i as int).map_values(|a: Attribute| enable_op(a)),
        decreases attributes.len() - i,
    {
        let c = attributes[i].enable();
        let ghost prev = calls.deep_view();
        calls.push(c);
        assert(calls.deep_view() =~= prev.push(enable_op(attributes@[i as int])));
        assert(attributes@.take(i + 1).map_values(|a: Attribute| enable_op(a)) =~= attributes@.take(
            i as int,
        ).map_values(|a: Attribute| enable_op(a)).push(enable_op(attributes@[i as int])));
        i += 1;
    }
    assert(attributes@.take(attributes.len() as int) =~= attributes@);
    calls
}

/// The calls that disable each attribute, in order.
pub fn disable_calls(attributes: &Vec<Attribute>) -> (calls: Vec<GlCall>)
    ensures
        calls.deep_view() == attributes@.map_values(|a: Attribute| disable_op(a)),
{
    let mut calls = Vec::new();
    let mut i: usize = 0;
    while i < attributes.len()
        invariant
            0 <= i <= attributes.len(),
            calls.deep_view() == attributes@.take(i as int).map_values(|a: Attribute| disable_op(a)),
        decreases attributes.len() - i,
    {
        let c = attributes[i].disable();
        let ghost prev = calls.deep_view();
        calls.push(c);
        assert(calls.deep_view() =~= prev.push(disable_op(attributes@[i as int])));
        assert(attributes@.take(i + 1).map_values(|a: Attribute| disable_op(a)) =~= attributes@.take(
            i as int,
        ).map_values(|a: Attribute| disable_op(a)).push(disable_op(attributes@[i as int])));
        i += 1;
    }
    assert(attributes@.take(attributes.len() as int) =~= attributes@);
    calls
}

/// A table of the vertex attributes of a shader program, such as the
/// `attribute_table!` macro defines.
pub trait AttributeTable: Sized {
    /// The names of the attributes in the shader, in declaration order.
    fn names() -> Vec<&'static str>;

    /// The table of these attributes, one for each name, in the same order.
    fn from_attributes(attributes: Vec<Attribute>) -> Self;

    /// The attributes of the table, in declaration order.
    fn attributes(&self) -> Vec<Attribute>;

    /// The calls that enable every attribute array of the table.
    fn enable_all(&self) -> (calls: Vec<GlCall>)
        ensures
            exists|attrs: Vec<Attribute>|
                #![trigger call_ensures(Self::attributes, (self,), attrs)]
                call_ensures(Self::attributes, (self,), attrs) && calls.deep_view() == attrs@.map_values(
                    |a: Attribute| enable_op(a),
                ),
    {
        let attrs = self.attributes();
        let calls = enable_calls(&attrs);
        assert(call_ensures(Self::attributes, (self,), attrs));
        calls
    }

    /// The calls that disable every attribute array of the table.
    fn disable_all(&self) -> (calls: Vec<GlCall>)
        ensures
            exists|attrs: Vec<Attribute>|
                #![trigger call_ensures(Self::attributes, (self,), attrs)]
                call_ensures(Self::attributes, (self,), attrs) && calls.deep_view() == attrs@.map_values(
                    |a: Attribute| disable_op(a),
                ),
    {
        let attrs = self.attributes();
        let calls = disable_calls(&attrs);
        assert(call_ensures(Self::attributes, (self,), attrs));
        calls
    }
}

/// `r` is what [`attribute_table_from`] gives for `locations`: for the names
/// that `T` declares, the error naming each one not found, or the table that
/// `T` builds from the attributes.
pub open spec fn attribute_table_result<T: AttributeTable>(locations: Seq<i32>, r: Result<T, MissingAttributes>) -> bool {
    exists|names: Vec<&'static str>|
        #![trigger call_ensures(T::names, (), names)]
        call_ensures(T::names, (), names) && {
            let missing = missing_names(names@, locations, attribute_absent());
            &&& missing.len() > 0 ==> (r matches Err(e) && e.0@ == missing)
            &&& missing.len() == 0 ==> (r matches Ok(t) && exists|attrs: Vec<Attribute>|
                attrs@ == attributes_of(locations, names@.len()) && call_ensures(
                    T::from_attributes,
                    (attrs,),
                    t,
                ))
        }
}

/// The table `T` from the locations that the GL returned for its names, in
/// order: an error naming each attribute that was not found, or the table
/// built from the attributes.
pub fn attribute_table_from<T: AttributeTable>(locations: &Vec<i32>) -> (r: Result<T, MissingAttributes>)
    ensures
        attribute_table_result(locations@, r),
{
    let names = T::names();
    match resolve_attributes(&names, locations) {
        Ok(attrs) => Ok(T::from_attributes(attrs)),
        Err(e) => Err(e),
    }
}

} // verus!
