use vstd::prelude::*;

use crate::material::{material_words, Material, MaterialKind, MaterialView, MATERIAL_WORDS};
use crate::vector::{push_vec_words, vec_words, Point4, Vec4};

verus! {

/// Number of primitive slots, and of material slots, in the record.
pub const CAPACITY: usize = 128;

/// Words before the vectors: the eight scalar fields.
pub const HEADER_WORDS: usize = 8;

/// Words of the eight camera vectors (look-from, look-at, basis, deltas,
/// first pixel).
pub const CAMERA_WORDS: usize = 8 * 4;

/// Total number of 32-bit words in the record.
pub const RECORD_WORDS: usize = HEADER_WORDS + CAMERA_WORDS + CAPACITY * 4 + CAPACITY
    * MATERIAL_WORDS;

/// Size of the record in bytes, as the kernel's uniform binding declares it.
pub const RECORD_BYTES: usize = RECORD_WORDS * 4;

/// The camera quantities derived from look-from, look-at, the vertical
/// field of view and the resolution: the orthonormal basis `u`, `v`, `w`,
/// the per-pixel steps across and down the viewport, and the center of the
/// top-left pixel.
#[derive(Clone, Copy, Debug, PartialEq)]
pub struct CameraFrame {
    pub u: Vec4,
    pub v: Vec4,
    pub w: Vec4,
    pub pix_delta_x: Vec4,
    pub pix_delta_y: Vec4,
    pub pixel_up_left: Vec4,
}

/// Why a change to the record was refused.
#[derive(Clone, Copy, Debug, PartialEq, Eq, Structural)]
pub enum SceneError {
    /// Every primitive slot is already taken.
    CapacityExceeded,
}

/// What a scene record holds, as the contracts see it.
pub struct WorldView {
    pub width: u32,
    pub height: u32,
    pub samples_per_pixel: u32,
    pub max_depth: u32,
    pub frame: u32,
    pub frames_since_change: u32,
    pub vfov: u32,
    pub sphere_count: u32,
    pub lookfrom: Point4,
    pub lookat: Point4,
    pub camera: CameraFrame,
    pub spheres: Seq<Vec4>,
    pub materials: Seq<MaterialView>,
}

/// The all-zero vector.
pub open spec fn zero_vec() -> Vec4 {
    [0u32, 0u32, 0u32, 0u32]
}

/// The material that fills an unused slot: every one of its words is zero
/// (a Lambertian material of the all-zero color).
pub open spec fn blank_material() -> MaterialView {
    MaterialView { color: zero_vec(), kind: MaterialKind::Lambertian, fuzz: 0u32 }
}

/// A record as first built: the given camera, no primitives, counters at zero.
pub open spec fn fresh_view(
    width: u32,
    height: u32,
    lookfrom: Point4,
    lookat: Point4,
    vfov: u32,
    samples_per_pixel: u32,
    max_depth: u32,
    camera: CameraFrame,
) -> WorldView {
    WorldView {
        width,
        height,
        samples_per_pixel,
        max_depth,
        frame: 0,
        frames_since_change: 0,
        vfov,
        sphere_count: 0,
        lookfrom,
        lookat,
        camera,
        spheres: Seq::new(CAPACITY as nat, |i: int| zero_vec()),
        materials: Seq::new(CAPACITY as nat, |i: int| blank_material()),
    }
}

/// A record rebuilt for a new resolution: a fresh record from the same
/// camera parameters, carrying over the primitives, the materials, their
/// count and the frame counter.
pub open spec fn resized_view(old: WorldView, width: u32, height: u32, camera: CameraFrame) -> WorldView {
    WorldView {
        sphere_count: old.sphere_count,
        spheres: old.spheres,
        materials: old.materials,
        frame: old.frame,
        ..fresh_view(
            width,
            height,
            old.lookfrom,
            old.lookat,
            old.vfov,
            old.samples_per_pixel,
            old.max_depth,
            camera,
        )
    }
}

/// The record one rendered frame later.
pub open spec fn advanced_view(v: WorldView) -> WorldView {
    WorldView {
        frame: (v.frame + 1) as u32,
        frames_since_change: (v.frames_since_change + 1) as u32,
        ..v
    }
}

/// The record after a primitive and its material were appended.
pub open spec fn appended_view(v: WorldView, sphere: Vec4, material: MaterialView) -> WorldView {
    WorldView {
        sphere_count: (v.sphere_count + 1) as u32,
        spheres: v.spheres.update(v.sphere_count as int, sphere),
        materials: v.materials.update(v.sphere_count as int, material),
        ..v
    }
}

/// The words of the scalar fields, in layout order.
pub open spec fn header_words(v: WorldView) -> Seq<u32> {
    seq![
        v.width,
        v.height,
        v.samples_per_pixel,
        v.max_depth,
        v.frame,
        v.frames_since_change,
        v.vfov,
        v.sphere_count,
    ]
}

/// The words of the camera vectors, in layout order.
pub open spec fn camera_words(v: WorldView) -> Seq<u32> {
    vec_words(v.lookfrom) + vec_words(v.lookat) + vec_words(v.camera.u) + vec_words(v.camera.v)
        + vec_words(v.camera.w) + vec_words(v.camera.pix_delta_x) + vec_words(
        v.camera.pix_delta_y,
    ) + vec_words(v.camera.pixel_up_left)
}

/// The words of a list of primitives, one after the other.
pub open spec fn spheres_words(s: Seq<Vec4>) -> Seq<u32>
    decreases s.len(),
{
    if s.len() == 0 {
        Seq::empty()
    } else {
        spheres_words(s.drop_last()) + vec_words(s.last())
    }
}

/// The words of a list of materials, one after the other.
pub open spec fn materials_words(s: Seq<MaterialView>) -> Seq<u32>
    decreases s.len(),
{
    if s.len() == 0 {
        Seq::empty()
    } else {
        materials_words(s.drop_last()) + material_words(s.last())
    }
}

/// The whole record as the kernel reads it, one 32-bit word at a time.
pub open spec fn record_words(v: WorldView) -> Seq<u32> {
    header_words(v) + camera_words(v) + spheres_words(v.spheres) + materials_words(v.materials)
}

/// The scene record: camera, sampling parameters, frame counters, and the
/// fixed-capacity parallel lists of primitives and materials.
///
/// A primitive is a sphere: the first three components are its center, the
/// fourth its radius. The material at an index belongs to the primitive at
/// the same index.
#[derive(Clone, Debug)]
pub struct WorldData {
    width: u32,
    height: u32,
    samples_per_pixel: u32,
    max_depth: u32,
    frame: u32,
    frames_since_change: u32,
    vfov: u32,
    sphere_count: u32,
    lookfrom: Point4,
    lookat: Point4,
    camera: CameraFrame,
    spheres: Vec<Vec4>,
    materials: Vec<Material>,
}

impl View for WorldData {
    type V = WorldView;

    closed spec fn view(&self) -> WorldView {
        WorldView {
            width: self.width,
            height: self.height,
            samples_per_pixel: self.samples_per_pixel,
            max_depth: self.max_depth,
            frame: self.frame,
            frames_since_change: self.frames_since_change,
            vfov: self.vfov,
            sphere_count: self.sphere_count,
            lookfrom: self.lookfrom,
            lookat: self.lookat,
            camera: self.camera,
            spheres: self.spheres@,
            materials: self.materials@.map_values(|m: Material| m@),
        }
    }
}

/// The record's invariant: both lists have exactly `CAPACITY` slots, the
/// count of primitives in use is within them, and no more frames have
/// passed since the last change than in all.
pub open spec fn world_wf(v: WorldView) -> bool {
    &&& v.spheres.len() == CAPACITY
    &&& v.materials.len() == CAPACITY
    &&& v.sphere_count <= CAPACITY
    &&& v.frames_since_change <= v.frame
}

/// The record after `n` rendered frames.
pub open spec fn advanced_n_view(v: WorldView, n: nat) -> WorldView
    decreases n,
{
    if n == 0 {
        v
    } else {
        advanced_view(advanced_n_view(v, (n - 1) as nat))
    }
}

/// Rebuilding for a new resolution gives, in every camera field, exactly the
/// record that a fresh build at that resolution from the same camera
/// parameters gives, and carries over the primitives, the materials, their
/// count and the frame counter unchanged; the result is again well formed.
pub proof fn lemma_resize_matches_fresh(old: WorldView, width: u32, height: u32, camera: CameraFrame)
    requires
        world_wf(old),
    ensures
        ({
            let r = resized_view(old, width, height, camera);
            let f = fresh_view(
                width,
                height,
                old.lookfrom,
                old.lookat,
                old.vfov,
                old.samples_per_pixel,
                old.max_depth,
                camera,
            );
            &&& r.width == f.width
            &&& r.height == f.height
            &&& r.lookfrom == f.lookfrom
            &&& r.lookat == f.lookat
            &&& r.vfov == f.vfov
            &&& r.samples_per_pixel == f.samples_per_pixel
            &&& r.max_depth == f.max_depth
            &&& r.camera == f.camera
            &&& r.frames_since_change == f.frames_since_change
            &&& r.sphere_count == old.sphere_count
            &&& r.spheres == old.spheres
            &&& r.materials == old.materials
            &&& r.frame == old.frame
            &&& world_wf(r)
        }),
{
}

/// Rebuilding twice for the same resolution, with the same derived camera,
/// gives the same record as rebuilding once.
pub proof fn lemma_resize_idempotent(v: WorldView, width: u32, height: u32, camera: CameraFrame)
    ensures
        resized_view(resized_view(v, width, height, camera), width, height, camera)
            == resized_view(v, width, height, camera),
{
}

/// Counting `n` frames raises the frame counter and the frames-since-change
/// counter by exactly `n` each and leaves everything else as it was.
pub proof fn lemma_advance_n_frames(v: WorldView, n: nat)
    requires
        world_wf(v),
        v.frame + n <= u32::MAX,
    ensures
        advanced_n_view(v, n) == (WorldView {
            frame: (v.frame + n) as u32,
            frames_since_change: (v.frames_since_change + n) as u32,
            ..v
        }),
        world_wf(advanced_n_view(v, n)),
    decreases n,
{
    if n > 0 {
        lemma_advance_n_frames(v, (n - 1) as nat);
    }
}

/// Each primitive takes four words.
pub proof fn lemma_spheres_words_len(s: Seq<Vec4>)
    ensures
        spheres_words(s).len() == 4 * s.len(),
    decreases s.len(),
{
    if s.len() > 0 {
        lemma_spheres_words_len(s.drop_last());
    }
}

/// Each material takes `MATERIAL_WORDS` words.
pub proof fn lemma_materials_words_len(s: Seq<MaterialView>)
    ensures
        materials_words(s).len() == MATERIAL_WORDS * s.len(),
    decreases s.len(),
{
    if s.len() > 0 {
        lemma_materials_words_len(s.drop_last());
    }
}

/// A well-formed record is exactly `RECORD_WORDS` words long.
pub proof fn lemma_record_words_len(v: WorldView)
    requires
        world_wf(v),
    ensures
        record_words(v).len() == RECORD_WORDS,
{
    lemma_spheres_words_len(v.spheres);
    lemma_materials_words_len(v.materials);
}

/// The word of primitive `i`'s component `k` among the primitives' words.
pub proof fn lemma_spheres_words_index(s: Seq<Vec4>, i: int, k: int)
    requires
        0 <= i < s.len(),
        0 <= k < 4,
    ensures
        spheres_words(s)[4 * i + k] == s[i][k],
    decreases s.len(),
{
    lemma_spheres_words_len(s.drop_last());
    if i < s.len() - 1 {
        lemma_spheres_words_index(s.drop_last(), i, k);
    }
}

/// The word of material `i`'s word `k` among the materials' words.
pub proof fn lemma_materials_words_index(s: Seq<MaterialView>, i: int, k: int)
    requires
        0 <= i < s.len(),
        0 <= k < MATERIAL_WORDS,
    ensures
        materials_words(s)[MATERIAL_WORDS * i + k] == material_words(s[i])[k],
    decreases s.len(),
{
    lemma_materials_words_len(s.drop_last());
    if i < s.len() - 1 {
        lemma_materials_words_index(s.drop_last(), i, k);
    }
}

/// Where each field lies in a well-formed record: the scalars in words 0
/// to 7 in declaration order, the camera vectors from word `HEADER_WORDS`,
/// primitive `i` at word `HEADER_WORDS + CAMERA_WORDS + 4 * i`, and material
/// `i` at word `HEADER_WORDS + CAMERA_WORDS + 4 * CAPACITY + MATERIAL_WORDS * i`.
pub proof fn lemma_record_layout(v: WorldView)
    requires
        world_wf(v),
    ensures
        record_words(v).len() == RECORD_WORDS,
        record_words(v)[0] == v.width,
        record_words(v)[1] == v.height,
        record_words(v)[2] == v.samples_per_pixel,
        record_words(v)[3] == v.max_depth,
        record_words(v)[4] == v.frame,
        record_words(v)[5] == v.frames_since_change,
        record_words(v)[6] == v.vfov,
        record_words(v)[7] == v.sphere_count,
        forall|k: int|
            0 <= k < 4 ==> {
                &&& record_words(v)[HEADER_WORDS + k] == v.lookfrom[k]
                &&& record_words(v)[HEADER_WORDS + 4 + k] == v.lookat[k]
                &&& record_words(v)[HEADER_WORDS + 8 + k] == v.camera.u[k]
                &&& record_words(v)[HEADER_WORDS + 12 + k] == v.camera.v[k]
                &&& record_words(v)[HEADER_WORDS + 16 + k] == v.camera.w[k]
                &&& record_words(v)[HEADER_WORDS + 20 + k] == v.camera.pix_delta_x[k]
                &&& record_words(v)[HEADER_WORDS + 24 + k] == v.camera.pix_delta_y[k]
                &&& record_words(v)[HEADER_WORDS + 28 + k] == v.camera.pixel_up_left[k]
            },
        forall|i: int, k: int|
            0 <= i < CAPACITY && 0 <= k < 4 ==> #[trigger] record_words(v)[HEADER_WORDS
                + CAMERA_WORDS + 4 * i + k] == v.spheres[i][k],
        forall|i: int, k: int|
            0 <= i < CAPACITY && 0 <= k < MATERIAL_WORDS ==> #[trigger] record_words(v)[HEADER_WORDS
                + CAMERA_WORDS + 4 * CAPACITY + MATERIAL_WORDS * i + k] == material_words(
                v.materials[i],
            )[k],
{
    lemma_record_words_len(v);
    lemma_spheres_words_len(v.spheres);
    lemma_materials_words_len(v.materials);
    let rw = record_words(v);
    let pre = header_words(v) + camera_words(v);
    assert(pre.len() == HEADER_WORDS + CAMERA_WORDS);
    assert forall|k: int| 0 <= k < 4 implies {
        &&& rw[HEADER_WORDS + k] == v.lookfrom[k]
        &&& rw[HEADER_WORDS + 4 + k] == v.lookat[k]
        &&& rw[HEADER_WORDS + 8 + k] == v.camera.u[k]
        &&& rw[HEADER_WORDS + 12 + k] == v.camera.v[k]
        &&& rw[HEADER_WORDS + 16 + k] == v.camera.w[k]
        &&& rw[HEADER_WORDS + 20 + k] == v.camera.pix_delta_x[k]
        &&& rw[HEADER_WORDS + 24 + k] == v.camera.pix_delta_y[k]
        &&& rw[HEADER_WORDS + 28 + k] == v.camera.pixel_up_left[k]
    } by {
        assert(rw[HEADER_WORDS + k] == pre[HEADER_WORDS + k]);
    }
    assert forall|i: int, k: int| 0 <= i < CAPACITY && 0 <= k < 4 implies #[trigger] rw[HEADER_WORDS
        + CAMERA_WORDS + 4 * i + k] == v.spheres[i][k] by {
        lemma_spheres_words_index(v.spheres, i, k);
    }
    assert forall|i: int, k: int| 0 <= i < CAPACITY && 0 <= k < MATERIAL_WORDS implies #[trigger] rw[HEADER_WORDS
        + CAMERA_WORDS + 4 * CAPACITY + MATERIAL_WORDS * i + k] == material_words(v.materials[i])[k] by {
        lemma_materials_words_index(v.materials, i, k);
    }
}

/// The four bytes of a word, least significant first.
pub open spec fn word_le_bytes(w: u32) -> Seq<u8> {
    seq![
        (w & 0xff) as u8,
        ((w >> 8u32) & 0xff) as u8,
        ((w >> 16u32) & 0xff) as u8,
        ((w >> 24u32) & 0xff) as u8,
    ]
}

/// The bytes of a list of words, four per word, each word least significant
/// byte first when `little` holds and most significant byte first otherwise.
pub open spec fn words_bytes(ws: Seq<u32>, little: bool) -> Seq<u8> {
    Seq::new(
        (4 * ws.len()) as nat,
        |j: int|
            if little {
                word_le_bytes(ws[j / 4])[j % 4]
            } else {
                word_le_bytes(ws[j / 4])[3 - j % 4]
            },
    )
}

/// Hands the bytes of `words` to the GPU upload as they lie in memory.
///
/// Relies on `bytemuck::cast_slice` from `u32` to `u8`: the same memory seen
/// as bytes, four for each word in the machine's byte order (little- or
/// big-endian), which never fails for this pair of types.
#[verifier::external_body]
fn words_as_bytes(words: &[u32]) -> (r: Vec<u8>)
    ensures
        r@ == words_bytes(words@, true) || r@ == words_bytes(words@, false),
{
    bytemuck::cast_slice::<u32, u8>(words).to_vec()
}

impl WorldData {
    pub open spec fn wf(&self) -> bool {
        world_wf(self@)
    }

    /// Builds the record for the given resolution and camera parameters.
    ///
    /// `camera` holds the quantities derived from `lookfrom`, `lookat`,
    /// `vfov` and the resolution; every slot is empty and both frame
    /// counters start at zero.
    pub fn new(
        window_width: u32,
        window_height: u32,
        lookfrom: Point4,
        lookat: Point4,
        vfov: u32,
        sample_per_pixels: u32,
        max_depth: u32,
        camera: CameraFrame,
    ) -> (r: WorldData)
        ensures
            r.wf(),
            r@ == fresh_view(
                window_width,
                window_height,
                lookfrom,
                lookat,
                vfov,
                sample_per_pixels,
                max_depth,
                camera,
            ),
    {
        let mut spheres: Vec<Vec4> = Vec::new();
        let mut materials: Vec<Material> = Vec::new();
        let blank = Material::lambertian([0, 0, 0, 0]);
        let mut i: usize = 0;
        while i < CAPACITY
            invariant
                i <= CAPACITY,
                spheres@.len() == i,
                materials@.len() == i,
                blank@ == blank_material(),
                forall|k: int| 0 <= k < i ==> spheres@[k] == zero_vec(),
                forall|k: int| 0 <= k < i ==> materials@[k]@ == blank_material(),
            decreases CAPACITY - i,
        {
            spheres.push([0, 0, 0, 0]);
            materials.push(blank);
            i = i + 1;
        }
        let r = WorldData {
            width: window_width,
            height: window_height,
            samples_per_pixel: sample_per_pixels,
            max_depth,
            frame: 0,
            frames_since_change: 0,
            vfov,
            sphere_count: 0,
            lookfrom,
            lookat,
            camera,
            spheres,
            materials,
        };
        assert(r@.spheres =~= fresh_view(
            window_width, window_height, lookfrom, lookat, vfov, sample_per_pixels, max_depth, camera,
        ).spheres);
        assert(r@.materials =~= fresh_view(
            window_width, window_height, lookfrom, lookat, vfov, sample_per_pixels, max_depth, camera,
        ).materials);
        r
    }

    /// Counts one more rendered frame: both counters go up by one and
    /// nothing else changes.
    pub fn next_frame(&mut self)
        requires
            old(self).wf(),
            old(self)@.frame < u32::MAX,
        ensures
            final(self).wf(),
            final(self)@ == advanced_view(old(self)@),
    {
        self.frame = self.frame + 1;
        self.frames_since_change = self.frames_since_change + 1;
    }

    /// Rebuilds the record for a new resolution.
    ///
    /// `camera` holds the quantities derived from the record's own
    /// look-from, look-at and field of view at the new resolution. The
    /// result is the record that [`WorldData::new`] builds from those
    /// values, with the primitives, materials, their count and the frame
    /// counter carried over; the frames-since-change counter starts again
    /// at zero.
    pub fn update_size(&mut self, window_width: u32, window_height: u32, camera: CameraFrame)
        requires
            old(self).wf(),
        ensures
            final(self).wf(),
            final(self)@ == resized_view(old(self)@, window_width, window_height, camera),
    {
        self.width = window_width;
        self.height = window_height;
        self.camera = camera;
        self.frames_since_change = 0;
    }

    /// Appends a primitive and its material in the next free slot.
    ///
    /// Fails with `CapacityExceeded`, leaving the record as it was, when all
    /// `CAPACITY` slots are taken.
    pub fn add_sphere(&mut self, sphere: Vec4, material: Material) -> (r: Result<(), SceneError>)
        requires
            old(self).wf(),
        ensures
            final(self).wf(),
            old(self)@.sphere_count < CAPACITY ==> r is Ok && final(self)@ == appended_view(
                old(self)@,
                sphere,
                material@,
            ),
            old(self)@.sphere_count >= CAPACITY ==> r == Err::<(), SceneError>(
                SceneError::CapacityExceeded,
            ) && final(self)@ == old(self)@,
    {
        if self.sphere_count as usize >= CAPACITY {
            return Err(SceneError::CapacityExceeded);
        }
        let idx = self.sphere_count as usize;
        self.spheres.set(idx, sphere);
        self.materials.set(idx, material);
        self.sphere_count = self.sphere_count + 1;
        assert(self@.materials =~= old(self)@.materials.update(idx as int, material@));
        Ok(())
    }

    pub fn window_width(&self) -> (r: u32)
        ensures
            r == self@.width,
    {
        self.width
    }

    pub fn window_height(&self) -> (r: u32)
        ensures
            r == self@.height,
    {
        self.height
    }

    pub fn sample_per_pixels(&self) -> (r: u32)
        ensures
            r == self@.samples_per_pixel,
    {
        self.samples_per_pixel
    }

    pub fn max_depth(&self) -> (r: u32)
        ensures
            r == self@.max_depth,
    {
        self.max_depth
    }

    pub fn frame(&self) -> (r: u32)
        ensures
            r == self@.frame,
    {
        self.frame
    }

    pub fn frames_since_change(&self) -> (r: u32)
        ensures
            r == self@.frames_since_change,
    {
        self.frames_since_change
    }

    pub fn vfov(&self) -> (r: u32)
        ensures
            r == self@.vfov,
    {
        self.vfov
    }

    pub fn sphere_count(&self) -> (r: u32)
        ensures
            r == self@.sphere_count,
    {
        self.sphere_count
    }

    pub fn lookfrom(&self) -> (r: Point4)
        ensures
            r == self@.lookfrom,
    {
        self.lookfrom
    }

    pub fn lookat(&self) -> (r: Point4)
        ensures
            r == self@.lookat,
    {
        self.lookat
    }

    pub fn camera(&self) -> (r: CameraFrame)
        ensures
            r == self@.camera,
    {
        self.camera
    }

    /// The primitive in slot `index`.
    pub fn sphere(&self, index: usize) -> (r: Vec4)
        requires
            self.wf(),
            index < CAPACITY,
        ensures
            r == self@.spheres[index as int],
    {
        self.spheres[index]
    }

    /// The material in slot `index`.
    pub fn material(&self, index: usize) -> (r: Material)
        requires
            self.wf(),
            index < CAPACITY,
        ensures
            r@ == self@.materials[index as int],
    {
        self.materials[index]
    }

    /// The record in the kernel's layout, one 32-bit word per entry: the
    /// eight scalars, the eight camera vectors, every primitive slot, then
    /// every material slot.
    pub fn to_words(&self) -> (r: Vec<u32>)
        requires
            self.wf(),
        ensures
            r@ == record_words(self@),
            r@.len() == RECORD_WORDS,
    {
        let mut out: Vec<u32> = Vec::new();
        out.push(self.width);
        out.push(self.height);
        out.push(self.samples_per_pixel);
        out.push(self.max_depth);
        out.push(self.frame);
        out.push(self.frames_since_change);
        out.push(self.vfov);
        out.push(self.sphere_count);
        assert(out@ =~= header_words(self@));
        push_vec_words(&mut out, self.lookfrom);
        push_vec_words(&mut out, self.lookat);
        push_vec_words(&mut out, self.camera.u);
        push_vec_words(&mut out, self.camera.v);
        push_vec_words(&mut out, self.camera.w);
        push_vec_words(&mut out, self.camera.pix_delta_x);
        push_vec_words(&mut out, self.camera.pix_delta_y);
        push_vec_words(&mut out, self.camera.pixel_up_left);
        let ghost prefix = header_words(self@) + camera_words(self@);
        assert(out@ =~= prefix);
        assert(self@.spheres.subrange(0, 0) =~= Seq::<Vec4>::empty());
        let mut i: usize = 0;
        while i < CAPACITY
            invariant
                self.wf(),
                i <= CAPACITY,
                out@ == prefix + spheres_words(self@.spheres.subrange(0, i as int)),
            decreases CAPACITY - i,
        {
            push_vec_words(&mut out, self.spheres[i]);
            assert(self@.spheres.subrange(0, i + 1).drop_last() =~= self@.spheres.subrange(0, i as int));
            i = i + 1;
        }
        assert(self@.spheres.subrange(0, CAPACITY as int) =~= self@.spheres);
        let ghost prefix2 = prefix + spheres_words(self@.spheres);
        assert(self@.materials.subrange(0, 0) =~= Seq::<MaterialView>::empty());
        assert(out@ =~= prefix2 + materials_words(self@.materials.subrange(0, 0)));
        let mut j: usize = 0;
        while j < CAPACITY
            invariant
                self.wf(),
                j <= CAPACITY,
                out@ == prefix2 + materials_words(self@.materials.subrange(0, j as int)),
            decreases CAPACITY - j,
        {
            self.materials[j].push_words(&mut out);
            assert(self@.materials.subrange(0, j + 1).drop_last() =~= self@.materials.subrange(0, j as int));
            j = j + 1;
        }
        assert(self@.materials.subrange(0, CAPACITY as int) =~= self@.materials);
        proof {
            lemma_record_words_len(self@);
        }
        assert(out@ =~= record_words(self@));
        out
    }

    /// The record as the bytes to copy into the kernel's uniform buffer:
    /// the words of [`WorldData::to_words`], four bytes each, in the
    /// machine's byte order.
    pub fn to_bytes(&self) -> (r: Vec<u8>)
        requires
            self.wf(),
        ensures
            r@ == words_bytes(record_words(self@), true) || r@ == words_bytes(
                record_words(self@),
                false,
            ),
            r@.len() == RECORD_BYTES,
    {
        let words = self.to_words();
        words_as_bytes(words.as_slice())
    }
}

} // verus!
