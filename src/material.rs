use vstd::prelude::*;

use crate::vector::{vec_words, Vec4, ZERO_BITS};

verus! {

/// How a surface interacts with light.
#[derive(Clone, Copy, Debug, PartialEq, Eq, Structural)]
pub enum MaterialKind {
    Lambertian,
    Metallic,
}

/// The discriminant the kernel reads for each kind.
pub open spec fn kind_tag(kind: MaterialKind) -> u32 {
    match kind {
        MaterialKind::Lambertian => 0,
        MaterialKind::Metallic => 1,
    }
}

/// What a material holds, as the contracts see it.
pub struct MaterialView {
    pub color: Vec4,
    pub kind: MaterialKind,
    pub fuzz: u32,
}

/// A surface description, laid out as eight 32-bit words: the color, the
/// kind's discriminant, the fuzz factor and two words of zero padding, so
/// that the record is 32 bytes long.
///
/// The fields are private: a material only comes from [`Material::lambertian`]
/// or [`Material::metallic`], so a Lambertian one always has a zero fuzz.
#[derive(Clone, Copy, Debug, PartialEq)]
pub struct Material {
    color: Vec4,
    kind: MaterialKind,
    fuzz: u32,
}

impl View for Material {
    type V = MaterialView;

    closed spec fn view(&self) -> MaterialView {
        MaterialView { color: self.color, kind: self.kind, fuzz: self.fuzz }
    }
}

/// The words of a material in the kernel's layout.
pub open spec fn material_words(m: MaterialView) -> Seq<u32> {
    vec_words(m.color) + seq![kind_tag(m.kind), m.fuzz, 0u32, 0u32]
}

/// Number of 32-bit words in one material record.
pub const MATERIAL_WORDS: usize = 8;

impl Material {
    /// A diffuse material of the given color; its fuzz is zero.
    pub fn lambertian(color: Vec4) -> (r: Material)
        ensures
            r@ == (MaterialView { color, kind: MaterialKind::Lambertian, fuzz: 0u32 }),
    {
        Material { color, kind: MaterialKind::Lambertian, fuzz: ZERO_BITS }
    }

    /// A reflective material of the given color and fuzz factor (the bit
    /// pattern of a binary32, kept as given).
    pub fn metallic(color: Vec4, fuzz: u32) -> (r: Material)
        ensures
            r@ == (MaterialView { color, kind: MaterialKind::Metallic, fuzz }),
    {
        Material { color, kind: MaterialKind::Metallic, fuzz }
    }

    pub fn color(&self) -> (r: Vec4)
        ensures
            r == self@.color,
    {
        self.color
    }

    pub fn kind(&self) -> (r: MaterialKind)
        ensures
            r == self@.kind,
    {
        self.kind
    }

    pub fn fuzz(&self) -> (r: u32)
        ensures
            r == self@.fuzz,
    {
        self.fuzz
    }

    /// The discriminant the kernel reads: 0 for Lambertian, 1 for Metallic.
    pub fn kind_tag(&self) -> (r: u32)
        ensures
            r == kind_tag(self@.kind),
    {
        match self.kind {
            MaterialKind::Lambertian => 0,
            MaterialKind::Metallic => 1,
        }
    }

    /// Appends the material's eight words to `out`.
    pub fn push_words(&self, out: &mut Vec<u32>)
        ensures
            final(out)@ == old(out)@ + material_words(self@),
    {
        out.push(self.color[0]);
        out.push(self.color[1]);
        out.push(self.color[2]);
        out.push(self.color[3]);
        out.push(self.kind_tag());
        out.push(self.fuzz);
        out.push(0);
        out.push(0);
        assert(out@ =~= old(out)@ + material_words(self@));
    }
}

} // verus!
