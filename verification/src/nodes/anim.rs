//! Animation: animation groups and bundles, and the parts of an animated character.

use vstd::prelude::*;

use crate::bam::{
    lemma_repeat_err, lift, outcome, ref_item, sp_pointer, sp_ref, sp_repeat, AssetView,
    BinaryAsset, Error, PR,
};
use crate::datagram::{
    dg_bool, dg_float, dg_floats, dg_string, dg_u16, dg_u32, dg_u8, Datagram, DgView, FloatBits,
};
use crate::nodes::enums::{BlendType, PlayMode};

verus! {

/// The abstract value of an AnimGroup.
pub struct AnimGroupView {
    pub name: Seq<char>,
    pub root_ref: u32,
    pub child_refs: Seq<u32>,
}

/// A node of an animation hierarchy.
pub struct AnimGroup {
    pub name: String,
    pub root_ref: u32,
    pub child_refs: Vec<u32>,
}

impl View for AnimGroup {
    type V = AnimGroupView;

    open spec fn view(&self) -> AnimGroupView {
        AnimGroupView { name: self.name@, root_ref: self.root_ref, child_refs: self.child_refs@ }
    }
}

/// Reads an AnimGroup: name, root, then a 16-bit count of children.
pub open spec fn sp_anim_group(a: AssetView, d: DgView) -> PR<AnimGroupView> {
    match lift(dg_string(d), a) {
        Err(e) => Err(e),
        Ok((name, a, d)) => match sp_ref(a, d) {
            Err(e) => Err(e),
            Ok((root_ref, a, d)) => match lift(dg_u16(d), a) {
                Err(e) => Err(e),
                Ok((n, a, d)) => match sp_repeat(ref_item(), a, d, n as nat) {
                    Err(e) => Err(e),
                    Ok((child_refs, a, d)) => Ok((AnimGroupView { name, root_ref, child_refs }, a, d)),
                },
            },
        },
    }
}

impl AnimGroup {
    pub fn create(loader: &mut BinaryAsset, data: &mut Datagram) -> (r: Result<Self, Error>)
        requires
            old(data).wf(),
        ensures
            final(loader).header == old(loader).header,
            final(data).wf(),
            outcome(r, sp_anim_group(old(loader)@, old(data)@), final(loader)@, final(data)@),
    {
        let name = match data.read_string() {
            Ok(s) => s,
            Err(e) => return Err(Error::DataError(e)),
        };
        let root_ref = match loader.read_ref(data) {
            Ok(p) => p,
            Err(e) => return Err(e),
        };
        let num_children = match data.read_u16() {
            Ok(v) => v,
            Err(e) => return Err(Error::DataError(e)),
        };
        let child_refs = match loader.read_refs(data, num_children as u32) {
            Ok(v) => v,
            Err(e) => return Err(e),
        };
        Ok(AnimGroup { name, root_ref, child_refs })
    }
}

/// The abstract value of an AnimBundle.
pub struct AnimBundleView {
    pub inner: AnimGroupView,
    pub fps: FloatBits,
    pub num_frames: u16,
}

/// The root of an animation.
pub struct AnimBundle {
    pub inner: AnimGroup,
    pub fps: FloatBits,
    pub num_frames: u16,
}

impl View for AnimBundle {
    type V = AnimBundleView;

    open spec fn view(&self) -> AnimBundleView {
        AnimBundleView { inner: self.inner@, fps: self.fps, num_frames: self.num_frames }
    }
}

/// Reads an AnimBundle: an AnimGroup, the frame rate and the frame count.
pub open spec fn sp_anim_bundle(a: AssetView, d: DgView) -> PR<AnimBundleView> {
    match sp_anim_group(a, d) {
        Err(e) => Err(e),
        Ok((inner, a, d)) => match lift(dg_float(d), a) {
            Err(e) => Err(e),
            Ok((fps, a, d)) => match lift(dg_u16(d), a) {
                Err(e) => Err(e),
                Ok((num_frames, a, d)) => Ok((AnimBundleView { inner, fps, num_frames }, a, d)),
            },
        },
    }
}

impl AnimBundle {
    pub fn create(loader: &mut BinaryAsset, data: &mut Datagram) -> (r: Result<Self, Error>)
        requires
            old(data).wf(),
        ensures
            final(loader).header == old(loader).header,
            final(data).wf(),
            outcome(r, sp_anim_bundle(old(loader)@, old(data)@), final(loader)@, final(data)@),
    {
        let inner = match AnimGroup::create(loader, data) {
            Ok(g) => g,
            Err(e) => return Err(e),
        };
        let fps = match data.read_float() {
            Ok(v) => v,
            Err(e) => return Err(Error::DataError(e)),
        };
        let num_frames = match data.read_u16() {
            Ok(v) => v,
            Err(e) => return Err(Error::DataError(e)),
        };
        Ok(AnimBundle { inner, fps, num_frames })
    }
}

/// The abstract value of an AnimChannelMatrix.
pub struct AnimChannelMatrixView {
    pub inner: AnimGroupView,
    pub last_frame: u16,
}

/// An animation channel of matrices.
pub struct AnimChannelMatrix {
    pub inner: AnimGroup,
    pub last_frame: u16,
}

impl View for AnimChannelMatrix {
    type V = AnimChannelMatrixView;

    open spec fn view(&self) -> AnimChannelMatrixView {
        AnimChannelMatrixView { inner: self.inner@, last_frame: self.last_frame }
    }
}

/// Reads an AnimChannelMatrix: an AnimGroup and the last frame.
pub open spec fn sp_anim_channel_matrix(a: AssetView, d: DgView) -> PR<AnimChannelMatrixView> {
    match sp_anim_group(a, d) {
        Err(e) => Err(e),
        Ok((inner, a, d)) => match lift(dg_u16(d), a) {
            Err(e) => Err(e),
            Ok((last_frame, a, d)) => Ok((AnimChannelMatrixView { inner, last_frame }, a, d)),
        },
    }
}

impl AnimChannelMatrix {
    pub fn create(loader: &mut BinaryAsset, data: &mut Datagram) -> (r: Result<Self, Error>)
        requires
            old(data).wf(),
        ensures
            final(loader).header == old(loader).header,
            final(data).wf(),
            outcome(r, sp_anim_channel_matrix(old(loader)@, old(data)@), final(loader)@, final(data)@),
    {
        let inner = match AnimGroup::create(loader, data) {
            Ok(g) => g,
            Err(e) => return Err(e),
        };
        let last_frame = match data.read_u16() {
            Ok(v) => v,
            Err(e) => return Err(Error::DataError(e)),
        };
        Ok(AnimChannelMatrix { inner, last_frame })
    }
}

/// The number of component tables of a matrix channel (scale, shear, rotation, translation).
pub const NUM_MATRIX_COMPONENTS: usize = 12;

/// Reads one component table: a 16-bit count, then that many floats.
pub open spec fn sp_table(a: AssetView, d: DgView) -> PR<Seq<FloatBits>> {
    match lift(dg_u16(d), a) {
        Err(e) => Err(e),
        Ok((n, a, d)) => lift(dg_floats(d, n as nat), a),
    }
}

/// `sp_table` as a list item.
pub open spec fn table_item() -> spec_fn(AssetView, DgView) -> PR<Seq<FloatBits>> {
    |a: AssetView, d: DgView| sp_table(a, d)
}

/// The abstract value of an AnimChannelMatrixXfmTable.
pub struct AnimChannelMatrixXfmTableView {
    pub inner: AnimChannelMatrixView,
    pub tables: Seq<Seq<FloatBits>>,
}

/// A matrix channel stored as one table of values per matrix component.
pub struct AnimChannelMatrixXfmTable {
    pub inner: AnimChannelMatrix,
    pub tables: Vec<Vec<FloatBits>>,
}

impl View for AnimChannelMatrixXfmTable {
    type V = AnimChannelMatrixXfmTableView;

    open spec fn view(&self) -> AnimChannelMatrixXfmTableView {
        AnimChannelMatrixXfmTableView { inner: self.inner@, tables: self.tables.deep_view() }
    }
}

/// Reads an AnimChannelMatrixXfmTable: an AnimChannelMatrix, whether the tables are compressed
/// and whether rotations use the new HPR convention, then, uncompressed, the twelve tables.
/// Compressed tables and the old HPR convention are not supported.
pub open spec fn sp_xfm_table(a: AssetView, d: DgView) -> PR<AnimChannelMatrixXfmTableView> {
    match sp_anim_channel_matrix(a, d) {
        Err(e) => Err(e),
        Ok((inner, a, d)) => match lift(dg_bool(d), a) {
            Err(e) => Err(e),
            Ok((wrote_compressed, a, d)) => match lift(dg_bool(d), a) {
                Err(e) => Err(e),
                Ok((new_hpr, a, d)) => if wrote_compressed {
                    Err(Error::Unimplemented)
                } else {
                    match sp_repeat(table_item(), a, d, NUM_MATRIX_COMPONENTS as nat) {
                        Err(e) => Err(e),
                        Ok((tables, a, d)) => if !new_hpr {
                            Err(Error::Unimplemented)
                        } else {
                            Ok((AnimChannelMatrixXfmTableView { inner, tables }, a, d))
                        },
                    }
                },
            },
        },
    }
}

impl AnimChannelMatrixXfmTable {
    pub fn create(loader: &mut BinaryAsset, data: &mut Datagram) -> (r: Result<Self, Error>)
        requires
            old(data).wf(),
        ensures
            final(loader).header == old(loader).header,
            final(data).wf(),
            outcome(r, sp_xfm_table(old(loader)@, old(data)@), final(loader)@, final(data)@),
    {
        let inner = match AnimChannelMatrix::create(loader, data) {
            Ok(c) => c,
            Err(e) => return Err(e),
        };
        let wrote_compressed = match data.read_bool() {
            Ok(v) => v,
            Err(e) => return Err(Error::DataError(e)),
        };
        let new_hpr = match data.read_bool() {
            Ok(v) => v,
            Err(e) => return Err(Error::DataError(e)),
        };
        if wrote_compressed {
            return Err(Error::Unimplemented);
        }
        let ghost a0 = loader@;
        let ghost d0 = data@;
        let mut tables: Vec<Vec<FloatBits>> = Vec::new();
        assert(tables.deep_view() =~= Seq::<Seq<FloatBits>>::empty());
        let mut i: usize = 0;
        while i < NUM_MATRIX_COMPONENTS
            invariant
                loader.header == old(loader).header,
                data.wf(),
                i <= NUM_MATRIX_COMPONENTS,
                sp_xfm_table(old(loader)@, old(data)@) == match sp_repeat(table_item(), a0, d0, NUM_MATRIX_COMPONENTS as nat) {
                    Err(e) => Err(e),
                    Ok((tables, a, d)) => if !new_hpr {
                        Err(Error::Unimplemented)
                    } else {
                        Ok((AnimChannelMatrixXfmTableView { inner: inner@, tables }, a, d))
                    },
                },
                sp_repeat(table_item(), a0, d0, i as nat) == Ok::<(Seq<Seq<FloatBits>>, AssetView, DgView), Error>((tables.deep_view(), loader@, data@)),
            decreases NUM_MATRIX_COMPONENTS - i,
        {
            let table_size = match data.read_u16() {
                Ok(v) => v,
                Err(e) => {
                    proof {
                        lemma_repeat_err(table_item(), a0, d0, (i + 1) as nat, NUM_MATRIX_COMPONENTS as nat);
                    }
                    return Err(Error::DataError(e));
                },
            };
            let table = match data.read_floats(table_size as usize) {
                Ok(v) => v,
                Err(e) => {
                    proof {
                        lemma_repeat_err(table_item(), a0, d0, (i + 1) as nat, NUM_MATRIX_COMPONENTS as nat);
                    }
                    return Err(Error::DataError(e));
                },
            };
            let ghost before = tables.deep_view();
            assert(table.deep_view() =~= table@);
            tables.push(table);
            assert(tables.deep_view() =~= before.push(table@));
            i = i + 1;
        }
        if !new_hpr {
            return Err(Error::Unimplemented);
        }
        Ok(AnimChannelMatrixXfmTable { inner, tables })
    }
}

/// The playback state of an animation. Its effective frame rate, the product of the frame
/// rate and the play rate, is left to callers that compute with floats.
#[derive(Clone, Copy, Debug, PartialEq, Eq, Structural)]
pub struct AnimInterface {
    pub num_frames: u32,
    pub frame_rate: FloatBits,
    pub play_mode: PlayMode,
    pub start_time: FloatBits,
    pub start_frame: FloatBits,
    pub play_frames: FloatBits,
    pub from_frame: u32,
    pub to_frame: u32,
    pub play_rate: FloatBits,
    pub paused: bool,
    pub paused_f: FloatBits,
}

impl View for AnimInterface {
    type V = AnimInterface;

    open spec fn view(&self) -> AnimInterface {
        *self
    }
}

/// The frame count, frame rate, play mode and the start time, frame and length of an
/// AnimInterface.
pub open spec fn sp_anim_head(a: AssetView, d: DgView) -> PR<(u32, FloatBits, PlayMode, FloatBits, FloatBits, FloatBits)> {
    match lift(dg_u32(d), a) {
        Err(e) => Err(e),
        Ok((num_frames, a, d)) => match lift(dg_float(d), a) {
            Err(e) => Err(e),
            Ok((frame_rate, a, d)) => match lift(dg_u8(d), a) {
                Err(e) => Err(e),
                Ok((m, a, d)) => match lift(dg_float(d), a) {
                    Err(e) => Err(e),
                    Ok((start_time, a, d)) => match lift(dg_float(d), a) {
                        Err(e) => Err(e),
                        Ok((start_frame, a, d)) => match lift(dg_float(d), a) {
                            Err(e) => Err(e),
                            Ok((play_frames, a, d)) => Ok(
                                ((num_frames, frame_rate, PlayMode::from_byte(m), start_time, start_frame, play_frames), a, d),
                            ),
                        },
                    },
                },
            },
        },
    }
}

/// Reads an AnimInterface: `sp_anim_head`, then the first and last frames, the play rate,
/// whether it is paused and the paused frame.
pub open spec fn sp_anim_interface(a: AssetView, d: DgView) -> PR<AnimInterface> {
    match sp_anim_head(a, d) {
        Err(e) => Err(e),
        Ok(((num_frames, frame_rate, play_mode, start_time, start_frame, play_frames), a, d)) => match lift(dg_u32(d), a) {
            Err(e) => Err(e),
            Ok((from_frame, a, d)) => match lift(dg_u32(d), a) {
                Err(e) => Err(e),
                Ok((to_frame, a, d)) => match lift(dg_float(d), a) {
                    Err(e) => Err(e),
                    Ok((play_rate, a, d)) => match lift(dg_bool(d), a) {
                        Err(e) => Err(e),
                        Ok((paused, a, d)) => match lift(dg_float(d), a) {
                            Err(e) => Err(e),
                            Ok((paused_f, a, d)) => Ok(
                                (
                                    AnimInterface {
                                        num_frames,
                                        frame_rate,
                                        play_mode,
                                        start_time,
                                        start_frame,
                                        play_frames,
                                        from_frame,
                                        to_frame,
                                        play_rate,
                                        paused,
                                        paused_f,
                                    },
                                    a,
                                    d,
                                ),
                            ),
                        },
                    },
                },
            },
        },
    }
}

fn read_anim_head(loader: &mut BinaryAsset, data: &mut Datagram) -> (r: Result<(u32, FloatBits, PlayMode, FloatBits, FloatBits, FloatBits), Error>)
    requires
        old(data).wf(),
    ensures
        final(loader).header == old(loader).header,
        final(data).wf(),
        outcome(r, sp_anim_head(old(loader)@, old(data)@), final(loader)@, final(data)@),
{
    let num_frames = match data.read_u32() {
        Ok(v) => v,
        Err(e) => return Err(Error::DataError(e)),
    };
    let frame_rate = match data.read_float() {
        Ok(v) => v,
        Err(e) => return Err(Error::DataError(e)),
    };
    let play_mode = match data.read_u8() {
        Ok(b) => PlayMode::from_u8(b),
        Err(e) => return Err(Error::DataError(e)),
    };
    let start_time = match data.read_float() {
        Ok(v) => v,
        Err(e) => return Err(Error::DataError(e)),
    };
    let start_frame = match data.read_float() {
        Ok(v) => v,
        Err(e) => return Err(Error::DataError(e)),
    };
    let play_frames = match data.read_float() {
        Ok(v) => v,
        Err(e) => return Err(Error::DataError(e)),
    };
    Ok((num_frames, frame_rate, play_mode, start_time, start_frame, play_frames))
}

impl AnimInterface {
    pub fn create(loader: &mut BinaryAsset, data: &mut Datagram) -> (r: Result<Self, Error>)
        requires
            old(data).wf(),
        ensures
            final(loader).header == old(loader).header,
            final(data).wf(),
            outcome(r, sp_anim_interface(old(loader)@, old(data)@), final(loader)@, final(data)@),
    {
        let (num_frames, frame_rate, play_mode, start_time, start_frame, play_frames) = match read_anim_head(loader, data) {
            Ok(h) => h,
            Err(e) => return Err(e),
        };
        let from_frame = match data.read_u32() {
            Ok(v) => v,
            Err(e) => return Err(Error::DataError(e)),
        };
        let to_frame = match data.read_u32() {
            Ok(v) => v,
            Err(e) => return Err(Error::DataError(e)),
        };
        let play_rate = match data.read_float() {
            Ok(v) => v,
            Err(e) => return Err(Error::DataError(e)),
        };
        let paused = match data.read_bool() {
            Ok(v) => v,
            Err(e) => return Err(Error::DataError(e)),
        };
        let paused_f = match data.read_float() {
            Ok(v) => v,
            Err(e) => return Err(Error::DataError(e)),
        };
        Ok(AnimInterface {
            num_frames,
            frame_rate,
            play_mode,
            start_time,
            start_frame,
            play_frames,
            from_frame,
            to_frame,
            play_rate,
            paused,
            paused_f,
        })
    }
}

/// The abstract value of a PartGroup.
pub struct PartGroupView {
    pub name: Seq<char>,
    pub child_refs: Seq<u32>,
}

/// A node of a character's part hierarchy.
pub struct PartGroup {
    pub name: String,
    pub child_refs: Vec<u32>,
}

impl View for PartGroup {
    type V = PartGroupView;

    open spec fn view(&self) -> PartGroupView {
        PartGroupView { name: self.name@, child_refs: self.child_refs@ }
    }
}

/// Reads a PartGroup: name, then a 16-bit count of children. The layout of BAM 6.11 is not
/// supported.
pub open spec fn sp_part_group(a: AssetView, d: DgView) -> PR<PartGroupView> {
    match lift(dg_string(d), a) {
        Err(e) => Err(e),
        Ok((name, a, d)) => if a.header.version.minor == 11 {
            Err(Error::Unimplemented)
        } else {
            match lift(dg_u16(d), a) {
                Err(e) => Err(e),
                Ok((n, a, d)) => match sp_repeat(ref_item(), a, d, n as nat) {
                    Err(e) => Err(e),
                    Ok((child_refs, a, d)) => Ok((PartGroupView { name, child_refs }, a, d)),
                },
            }
        },
    }
}

impl PartGroup {
    pub fn create(loader: &mut BinaryAsset, data: &mut Datagram) -> (r: Result<Self, Error>)
        requires
            old(data).wf(),
        ensures
            final(loader).header == old(loader).header,
            final(data).wf(),
            outcome(r, sp_part_group(old(loader)@, old(data)@), final(loader)@, final(data)@),
    {
        let name = match data.read_string() {
            Ok(s) => s,
            Err(e) => return Err(Error::DataError(e)),
        };
        if loader.get_minor_version() == 11 {
            return Err(Error::Unimplemented);
        }
        let num_children = match data.read_u16() {
            Ok(v) => v,
            Err(e) => return Err(Error::DataError(e)),
        };
        let child_refs = match loader.read_refs(data, num_children as u32) {
            Ok(v) => v,
            Err(e) => return Err(e),
        };
        Ok(PartGroup { name, child_refs })
    }
}

/// The abstract value of a PartBundle.
pub struct PartBundleView {
    pub inner: PartGroupView,
    pub anim_preload_ref: Option<u32>,
    pub blend_type: BlendType,
    pub anim_blend_flag: bool,
    pub frame_blend_flag: bool,
    pub root_transform: Seq<FloatBits>,
}

/// The root of a character's part hierarchy.
pub struct PartBundle {
    pub inner: PartGroup,
    pub anim_preload_ref: Option<u32>,
    pub blend_type: BlendType,
    pub anim_blend_flag: bool,
    pub frame_blend_flag: bool,
    /// Sixteen floats.
    pub root_transform: Vec<FloatBits>,
}

impl View for PartBundle {
    type V = PartBundleView;

    open spec fn view(&self) -> PartBundleView {
        PartBundleView {
            inner: self.inner@,
            anim_preload_ref: self.anim_preload_ref,
            blend_type: self.blend_type,
            anim_blend_flag: self.anim_blend_flag,
            frame_blend_flag: self.frame_blend_flag,
            root_transform: self.root_transform@,
        }
    }
}

/// The blend type, the two blend flags and the root transform (sixteen floats) of a
/// PartBundle.
pub open spec fn sp_bundle_tail(a: AssetView, d: DgView) -> PR<(BlendType, bool, bool, Seq<FloatBits>)> {
    match lift(dg_u8(d), a) {
        Err(e) => Err(e),
        Ok((b, a, d)) => match lift(dg_bool(d), a) {
            Err(e) => Err(e),
            Ok((anim, a, d)) => match lift(dg_bool(d), a) {
                Err(e) => Err(e),
                Ok((frame, a, d)) => match lift(dg_floats(d, 16), a) {
                    Err(e) => Err(e),
                    Ok((m, a, d)) => Ok(((BlendType::from_byte(b), anim, frame, m), a, d)),
                },
            },
        },
    }
}

/// Reads a PartBundle: a PartGroup, from BAM 6.17 on a preload pointer, then `sp_bundle_tail`.
/// Layouts before 6.10 are not supported.
pub open spec fn sp_part_bundle(a: AssetView, d: DgView) -> PR<PartBundleView> {
    match sp_part_group(a, d) {
        Err(e) => Err(e),
        Ok((inner, a, d)) => {
            let preload: PR<Option<u32>> = if a.header.version.minor >= 17 {
                sp_pointer(a, d)
            } else {
                Ok((None, a, d))
            };
            match preload {
                Err(e) => Err(e),
                Ok((anim_preload_ref, a, d)) => if a.header.version.minor < 10 {
                    Err(Error::Unimplemented)
                } else {
                    match sp_bundle_tail(a, d) {
                        Err(e) => Err(e),
                        Ok(((blend_type, anim_blend_flag, frame_blend_flag, root_transform), a, d)) => if a.header.version.minor == 11 {
                            Err(Error::Unimplemented)
                        } else {
                            Ok(
                                (
                                    PartBundleView {
                                        inner,
                                        anim_preload_ref,
                                        blend_type,
                                        anim_blend_flag,
                                        frame_blend_flag,
                                        root_transform,
                                    },
                                    a,
                                    d,
                                ),
                            )
                        },
                    }
                },
            }
        },
    }
}

fn read_bundle_tail(loader: &mut BinaryAsset, data: &mut Datagram) -> (r: Result<(BlendType, bool, bool, Vec<FloatBits>), Error>)
    requires
        old(data).wf(),
    ensures
        final(loader).header == old(loader).header,
        final(data).wf(),
        match sp_bundle_tail(old(loader)@, old(data)@) {
            Ok((v, a, d)) => r matches Ok(x) && x.0 == v.0 && x.1 == v.1 && x.2 == v.2 && x.3@ == v.3
                && final(loader)@ == a && final(data)@ == d,
            Err(e) => r == Err::<(BlendType, bool, bool, Vec<FloatBits>), Error>(e),
        },
{
    let blend_type = match data.read_u8() {
        Ok(b) => BlendType::from_u8(b),
        Err(e) => return Err(Error::DataError(e)),
    };
    let anim_blend_flag = match data.read_bool() {
        Ok(v) => v,
        Err(e) => return Err(Error::DataError(e)),
    };
    let frame_blend_flag = match data.read_bool() {
        Ok(v) => v,
        Err(e) => return Err(Error::DataError(e)),
    };
    let root_transform = match data.read_floats(16) {
        Ok(v) => v,
        Err(e) => return Err(Error::DataError(e)),
    };
    Ok((blend_type, anim_blend_flag, frame_blend_flag, root_transform))
}

impl PartBundle {
    pub fn create(loader: &mut BinaryAsset, data: &mut Datagram) -> (r: Result<Self, Error>)
        requires
            old(data).wf(),
        ensures
            final(loader).header == old(loader).header,
            final(data).wf(),
            outcome(r, sp_part_bundle(old(loader)@, old(data)@), final(loader)@, final(data)@),
    {
        let inner = match PartGroup::create(loader, data) {
            Ok(g) => g,
            Err(e) => return Err(e),
        };
        let anim_preload_ref = if loader.get_minor_version() >= 17 {
            match loader.read_pointer(data) {
                Ok(p) => p,
                Err(e) => return Err(e),
            }
        } else {
            None
        };
        if loader.get_minor_version() < 10 {
            return Err(Error::Unimplemented);
        }
        let (blend_type, anim_blend_flag, frame_blend_flag, root_transform) = match read_bundle_tail(loader, data) {
            Ok(t) => t,
            Err(e) => return Err(e),
        };
        if loader.get_minor_version() == 11 {
            return Err(Error::Unimplemented);
        }
        Ok(PartBundle { inner, anim_preload_ref, blend_type, anim_blend_flag, frame_blend_flag, root_transform })
    }
}

/// The abstract value of a MovingPartBase.
pub struct MovingPartBaseView {
    pub inner: PartGroupView,
    pub forced_channel_ref: Option<u32>,
}

/// A part that animation channels move.
pub struct MovingPartBase {
    pub inner: PartGroup,
    pub forced_channel_ref: Option<u32>,
}

impl View for MovingPartBase {
    type V = MovingPartBaseView;

    open spec fn view(&self) -> MovingPartBaseView {
        MovingPartBaseView { inner: self.inner@, forced_channel_ref: self.forced_channel_ref }
    }
}

/// Reads a MovingPartBase: a PartGroup, then from BAM 6.20 on the forced channel pointer.
pub open spec fn sp_moving_part_base(a: AssetView, d: DgView) -> PR<MovingPartBaseView> {
    match sp_part_group(a, d) {
        Err(e) => Err(e),
        Ok((inner, a, d)) => {
            let forced: PR<Option<u32>> = if a.header.version.minor >= 20 {
                sp_pointer(a, d)
            } else {
                Ok((None, a, d))
            };
            match forced {
                Err(e) => Err(e),
                Ok((forced_channel_ref, a, d)) => Ok((MovingPartBaseView { inner, forced_channel_ref }, a, d)),
            }
        },
    }
}

impl MovingPartBase {
    pub fn create(loader: &mut BinaryAsset, data: &mut Datagram) -> (r: Result<Self, Error>)
        requires
            old(data).wf(),
        ensures
            final(loader).header == old(loader).header,
            final(data).wf(),
            outcome(r, sp_moving_part_base(old(loader)@, old(data)@), final(loader)@, final(data)@),
    {
        let inner = match PartGroup::create(loader, data) {
            Ok(g) => g,
            Err(e) => return Err(e),
        };
        let forced_channel_ref = if loader.get_minor_version() >= 20 {
            match loader.read_pointer(data) {
                Ok(p) => p,
                Err(e) => return Err(e),
            }
        } else {
            None
        };
        Ok(MovingPartBase { inner, forced_channel_ref })
    }
}

/// The abstract value of a MovingPartMatrix.
pub struct MovingPartMatrixView {
    pub inner: MovingPartBaseView,
    pub value: Seq<FloatBits>,
    pub default_value: Seq<FloatBits>,
}

/// A moving part whose value is a matrix.
pub struct MovingPartMatrix {
    pub inner: MovingPartBase,
    /// Sixteen floats.
    pub value: Vec<FloatBits>,
    /// Sixteen floats.
    pub default_value: Vec<FloatBits>,
}

impl View for MovingPartMatrix {
    type V = MovingPartMatrixView;

    open spec fn view(&self) -> MovingPartMatrixView {
        MovingPartMatrixView { inner: self.inner@, value: self.value@, default_value: self.default_value@ }
    }
}

/// Reads a MovingPartMatrix: a MovingPartBase, then the value and the default value, sixteen
/// floats each.
pub open spec fn sp_moving_part_matrix(a: AssetView, d: DgView) -> PR<MovingPartMatrixView> {
    match sp_moving_part_base(a, d) {
        Err(e) => Err(e),
        Ok((inner, a, d)) => match lift(dg_floats(d, 16), a) {
            Err(e) => Err(e),
            Ok((value, a, d)) => match lift(dg_floats(d, 16), a) {
                Err(e) => Err(e),
                Ok((default_value, a, d)) => Ok((MovingPartMatrixView { inner, value, default_value }, a, d)),
            },
        },
    }
}

impl MovingPartMatrix {
    pub fn create(loader: &mut BinaryAsset, data: &mut Datagram) -> (r: Result<Self, Error>)
        requires
            old(data).wf(),
        ensures
            final(loader).header == old(loader).header,
            final(data).wf(),
            outcome(r, sp_moving_part_matrix(old(loader)@, old(data)@), final(loader)@, final(data)@),
    {
        let inner = match MovingPartBase::create(loader, data) {
            Ok(b) => b,
            Err(e) => return Err(e),
        };
        let value = match data.read_floats(16) {
            Ok(v) => v,
            Err(e) => return Err(Error::DataError(e)),
        };
        let default_value = match data.read_floats(16) {
            Ok(v) => v,
            Err(e) => return Err(Error::DataError(e)),
        };
        Ok(MovingPartMatrix { inner, value, default_value })
    }
}

/// The abstract value of a CharacterJoint.
pub struct CharacterJointView {
    pub inner: MovingPartMatrixView,
    pub character_ref: Option<u32>,
    pub net_node_refs: Seq<u32>,
    pub local_node_refs: Seq<u32>,
    pub initial_net_transform_inverse: Seq<FloatBits>,
}

/// A joint of a character.
pub struct CharacterJoint {
    pub inner: MovingPartMatrix,
    pub character_ref: Option<u32>,
    pub net_node_refs: Vec<u32>,
    pub local_node_refs: Vec<u32>,
    /// Sixteen floats.
    pub initial_net_transform_inverse: Vec<FloatBits>,
}

impl View for CharacterJoint {
    type V = CharacterJointView;

    open spec fn view(&self) -> CharacterJointView {
        CharacterJointView {
            inner: self.inner@,
            character_ref: self.character_ref,
            net_node_refs: self.net_node_refs@,
            local_node_refs: self.local_node_refs@,
            initial_net_transform_inverse: self.initial_net_transform_inverse@,
        }
    }
}

/// Reads a CharacterJoint: a MovingPartMatrix, from BAM 6.4 on the character pointer, 16-bit
/// counts of net and local nodes each followed by the nodes, and the initial inverse net
/// transform (sixteen floats).
pub open spec fn sp_character_joint(a: AssetView, d: DgView) -> PR<CharacterJointView> {
    match sp_moving_part_matrix(a, d) {
        Err(e) => Err(e),
        Ok((inner, a, d)) => {
            let character: PR<Option<u32>> = if a.header.version.minor >= 4 {
                sp_pointer(a, d)
            } else {
                Ok((None, a, d))
            };
            match character {
                Err(e) => Err(e),
                Ok((character_ref, a, d)) => match lift(dg_u16(d), a) {
                    Err(e) => Err(e),
                    Ok((nn, a, d)) => match sp_repeat(ref_item(), a, d, nn as nat) {
                        Err(e) => Err(e),
                        Ok((net_node_refs, a, d)) => match lift(dg_u16(d), a) {
                            Err(e) => Err(e),
                            Ok((nl, a, d)) => match sp_repeat(ref_item(), a, d, nl as nat) {
                                Err(e) => Err(e),
                                Ok((local_node_refs, a, d)) => match lift(dg_floats(d, 16), a) {
                                    Err(e) => Err(e),
                                    Ok((m, a, d)) => Ok(
                                        (
                                            CharacterJointView {
                                                inner,
                                                character_ref,
                                                net_node_refs,
                                                local_node_refs,
                                                initial_net_transform_inverse: m,
                                            },
                                            a,
                                            d,
                                        ),
                                    ),
                                },
                            },
                        },
                    },
                },
            }
        },
    }
}

impl CharacterJoint {
    pub fn create(loader: &mut BinaryAsset, data: &mut Datagram) -> (r: Result<Self, Error>)
        requires
            old(data).wf(),
        ensures
            final(loader).header == old(loader).header,
            final(data).wf(),
            outcome(r, sp_character_joint(old(loader)@, old(data)@), final(loader)@, final(data)@),
    {
        let inner = match MovingPartMatrix::create(loader, data) {
            Ok(m) => m,
            Err(e) => return Err(e),
        };
        let character_ref = if loader.get_minor_version() >= 4 {
            match loader.read_pointer(data) {
                Ok(p) => p,
                Err(e) => return Err(e),
            }
        } else {
            None
        };
        let num_net_nodes = match data.read_u16() {
            Ok(v) => v,
            Err(e) => return Err(Error::DataError(e)),
        };
        let net_node_refs = match loader.read_refs(data, num_net_nodes as u32) {
            Ok(v) => v,
            Err(e) => return Err(e),
        };
        let num_local_nodes = match data.read_u16() {
            Ok(v) => v,
            Err(e) => return Err(Error::DataError(e)),
        };
        let local_node_refs = match loader.read_refs(data, num_local_nodes as u32) {
            Ok(v) => v,
            Err(e) => return Err(e),
        };
        let initial_net_transform_inverse = match data.read_floats(16) {
            Ok(v) => v,
            Err(e) => return Err(Error::DataError(e)),
        };
        Ok(CharacterJoint { inner, character_ref, net_node_refs, local_node_refs, initial_net_transform_inverse })
    }
}

/// A vertex transform that follows a joint.
#[derive(Clone, Copy, Debug, PartialEq, Eq, Structural)]
pub struct JointVertexTransform {
    pub joint_ref: u32,
}

impl View for JointVertexTransform {
    type V = JointVertexTransform;

    open spec fn view(&self) -> JointVertexTransform {
        *self
    }
}

/// Reads a JointVertexTransform: the joint reference.
pub open spec fn sp_joint_vertex_transform(a: AssetView, d: DgView) -> PR<JointVertexTransform> {
    match sp_ref(a, d) {
        Err(e) => Err(e),
        Ok((joint_ref, a, d)) => Ok((JointVertexTransform { joint_ref }, a, d)),
    }
}

impl JointVertexTransform {
    pub fn create(loader: &mut BinaryAsset, data: &mut Datagram) -> (r: Result<Self, Error>)
        requires
            old(data).wf(),
        ensures
            final(loader).header == old(loader).header,
            final(data).wf(),
            outcome(r, sp_joint_vertex_transform(old(loader)@, old(data)@), final(loader)@, final(data)@),
    {
        match loader.read_ref(data) {
            Ok(joint_ref) => Ok(JointVertexTransform { joint_ref }),
            Err(e) => Err(e),
        }
    }
}

} // verus!
