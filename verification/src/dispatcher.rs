//! Fragment dispatch and the fragment directory.
//!
//! The external file reader hands this module one `(type identifier, raw
//! payload)` pair per directory slot. Dispatch selects the decode routine
//! registered for that identifier and produces a type-erased `Fragment`
//! value; an identifier with no registered routine is a representable,
//! first-class case that preserves its raw bytes, never a failure of the
//! whole decode. The directory collects the decoded fragments in order, and
//! fragment references are resolved against it by 1-based position.

use crate::error::WldError;
use crate::fragments::camera_reference;
use crate::fragments::camera_reference::CameraReferenceFragment;
use crate::fragments::mesh_animated_vertices;
use crate::fragments::mesh_animated_vertices::MeshAnimatedVerticesFragment;
use crate::fragments::mesh_animated_vertices_reference;
use crate::fragments::mesh_animated_vertices_reference::MeshAnimatedVerticesReferenceFragment;
use crate::fragments::polygon_animation_reference;
use crate::fragments::polygon_animation_reference::PolygonAnimationReferenceFragment;
use crate::fragments::zone_unknown;
use crate::fragments::zone_unknown::ZoneUnknownFragment;
use crate::references::FragmentRef;
use crate::references::StringReference;
use vstd::prelude::*;
use vstd::slice::slice_to_vec;

verus! {

/// A record whose type identifier has no registered decode routine. It
/// carries its identifier and its raw payload and re-emits both untouched,
/// so files holding record kinds not modeled here survive a decode-encode
/// cycle unchanged.
#[derive(Debug, PartialEq)]
pub struct UnknownFragment {
    /// The type identifier as it appeared in the directory.
    pub type_id: u32,
    /// The raw payload, preserved byte-for-byte.
    pub bytes: Vec<u8>,
}

impl UnknownFragment {
    /// The exact bytes this record re-emits: its raw payload.
    pub open spec fn serial(self) -> Seq<u8> {
        self.bytes@
    }

    /// Re-emit the raw payload unchanged.
    pub fn serialize(&self) -> (r: Vec<u8>)
        ensures
            r@ == self.serial(),
    {
        slice_to_vec(self.bytes.as_slice())
    }
}

/// The closed sum of every fragment kind the dispatcher can produce. The
/// unknown variant keeps identifiers without a registered routine
/// representable, so the enumeration stays closed without losing forward
/// compatibility.
#[derive(Debug, PartialEq)]
pub enum Fragment {
    CameraReference(CameraReferenceFragment),
    MeshAnimatedVertices(MeshAnimatedVerticesFragment),
    MeshAnimatedVerticesReference(MeshAnimatedVerticesReferenceFragment),
    PolygonAnimationReference(PolygonAnimationReferenceFragment),
    ZoneUnknown(ZoneUnknownFragment),
    Unknown(UnknownFragment),
}

impl Fragment {
    /// The type identifier under which this fragment is dispatched.
    pub open spec fn type_id_spec(self) -> u32 {
        match self {
            Fragment::CameraReference(_) => camera_reference::TYPE_ID,
            Fragment::MeshAnimatedVertices(_) => mesh_animated_vertices::TYPE_ID,
            Fragment::MeshAnimatedVerticesReference(_) => mesh_animated_vertices_reference::TYPE_ID,
            Fragment::PolygonAnimationReference(_) => polygon_animation_reference::TYPE_ID,
            Fragment::ZoneUnknown(_) => zone_unknown::TYPE_ID,
            Fragment::Unknown(u) => u.type_id,
        }
    }

    /// The type identifier under which this fragment is dispatched.
    pub fn type_id(&self) -> (r: u32)
        ensures
            r == self.type_id_spec(),
    {
        match self {
            Fragment::CameraReference(_) => camera_reference::TYPE_ID,
            Fragment::MeshAnimatedVertices(_) => mesh_animated_vertices::TYPE_ID,
            Fragment::MeshAnimatedVerticesReference(_) => mesh_animated_vertices_reference::TYPE_ID,
            Fragment::PolygonAnimationReference(_) => polygon_animation_reference::TYPE_ID,
            Fragment::ZoneUnknown(_) => zone_unknown::TYPE_ID,
            Fragment::Unknown(u) => u.type_id,
        }
    }

    /// The exact bytes this fragment re-emits.
    pub open spec fn serial(self) -> Seq<u8> {
        match self {
            Fragment::CameraReference(f) => f.serial(),
            Fragment::MeshAnimatedVertices(f) => f.serial(),
            Fragment::MeshAnimatedVerticesReference(f) => f.serial(),
            Fragment::PolygonAnimationReference(f) => f.serial(),
            Fragment::ZoneUnknown(f) => f.serial(),
            Fragment::Unknown(f) => f.serial(),
        }
    }

    /// Re-emit the fragment's exact byte layout by its own kind's routine.
    pub fn serialize(&self) -> (r: Vec<u8>)
        ensures
            r@ == self.serial(),
    {
        match self {
            Fragment::CameraReference(f) => f.serialize(),
            Fragment::MeshAnimatedVertices(f) => f.serialize(),
            Fragment::MeshAnimatedVerticesReference(f) => f.serialize(),
            Fragment::PolygonAnimationReference(f) => f.serialize(),
            Fragment::ZoneUnknown(f) => f.serialize(),
            Fragment::Unknown(f) => f.serialize(),
        }
    }

    /// The name reference this fragment declares; the kinds that declare no
    /// name field report offset 0, which resolves to the empty string.
    pub open spec fn name_ref_spec(self) -> StringReference {
        match self {
            Fragment::CameraReference(f) => f.name_reference,
            Fragment::MeshAnimatedVertices(f) => f.name_reference,
            Fragment::MeshAnimatedVerticesReference(f) => f.name_reference,
            Fragment::PolygonAnimationReference(f) => f.name_reference,
            Fragment::ZoneUnknown(_) => StringReference { offset: 0 },
            Fragment::Unknown(_) => StringReference { offset: 0 },
        }
    }

    /// The name reference this fragment declares.
    pub fn name_ref(&self) -> (r: StringReference)
        ensures
            r == self.name_ref_spec(),
    {
        match self {
            Fragment::CameraReference(f) => f.name_reference,
            Fragment::MeshAnimatedVertices(f) => f.name_reference,
            Fragment::MeshAnimatedVerticesReference(f) => f.name_reference,
            Fragment::PolygonAnimationReference(f) => f.name_reference,
            Fragment::ZoneUnknown(_) => StringReference { offset: 0 },
            Fragment::Unknown(_) => StringReference { offset: 0 },
        }
    }

    /// Recover the concrete camera reference from a type-erased fragment.
    pub fn as_camera_reference(&self) -> (r: Option<&CameraReferenceFragment>)
        ensures
            r matches Some(f) ==> *self == (Fragment::CameraReference(*f)),
            r is None ==> !(self is CameraReference),
    {
        match self {
            Fragment::CameraReference(f) => Some(f),
            _ => None,
        }
    }

    /// Recover the concrete animated-vertex-set from a type-erased fragment.
    pub fn as_mesh_animated_vertices(&self) -> (r: Option<&MeshAnimatedVerticesFragment>)
        ensures
            r matches Some(f) ==> self matches Fragment::MeshAnimatedVertices(g) && g == *f,
            r is None ==> !(self is MeshAnimatedVertices),
    {
        match self {
            Fragment::MeshAnimatedVertices(f) => Some(f),
            _ => None,
        }
    }

    /// Recover the concrete animated-vertex-set reference from a type-erased
    /// fragment.
    pub fn as_mesh_animated_vertices_reference(&self) -> (r: Option<
        &MeshAnimatedVerticesReferenceFragment,
    >)
        ensures
            r matches Some(f) ==> *self == (Fragment::MeshAnimatedVerticesReference(*f)),
            r is None ==> !(self is MeshAnimatedVerticesReference),
    {
        match self {
            Fragment::MeshAnimatedVerticesReference(f) => Some(f),
            _ => None,
        }
    }

    /// Recover the concrete polygon-animation reference from a type-erased
    /// fragment.
    pub fn as_polygon_animation_reference(&self) -> (r: Option<
        &PolygonAnimationReferenceFragment,
    >)
        ensures
            r matches Some(f) ==> *self == (Fragment::PolygonAnimationReference(*f)),
            r is None ==> !(self is PolygonAnimationReference),
    {
        match self {
            Fragment::PolygonAnimationReference(f) => Some(f),
            _ => None,
        }
    }

    /// Recover the concrete zone record from a type-erased fragment.
    pub fn as_zone_unknown(&self) -> (r: Option<&ZoneUnknownFragment>)
        ensures
            r matches Some(f) ==> *self == (Fragment::ZoneUnknown(*f)),
            r is None ==> !(self is ZoneUnknown),
    {
        match self {
            Fragment::ZoneUnknown(f) => Some(f),
            _ => None,
        }
    }

    /// Recover the opaque unknown record from a type-erased fragment.
    pub fn as_unknown(&self) -> (r: Option<&UnknownFragment>)
        ensures
            r matches Some(f) ==> self matches Fragment::Unknown(g) && g == *f,
            r is None ==> !(self is Unknown),
    {
        match self {
            Fragment::Unknown(f) => Some(f),
            _ => None,
        }
    }
}

/// Whether a decode routine is registered for a type identifier.
pub open spec fn registered(type_id: u32) -> bool {
    ||| type_id == camera_reference::TYPE_ID
    ||| type_id == mesh_animated_vertices::TYPE_ID
    ||| type_id == mesh_animated_vertices_reference::TYPE_ID
    ||| type_id == polygon_animation_reference::TYPE_ID
    ||| type_id == zone_unknown::TYPE_ID
}

/// Decode one directory slot: run the decode routine registered for the
/// type identifier on the raw payload, yielding a type-erased fragment and
/// the number of bytes consumed. An unregistered identifier yields the
/// opaque unknown fragment carrying the whole payload, never a failure; the
/// only failure is a payload shorter than the fields its kind declares, and
/// a failed decode consumes nothing.
pub fn decode_fragment(type_id: u32, payload: &[u8]) -> (r: Result<(Fragment, usize), WldError>)
    ensures
        r matches Ok((f, n)) ==> f.type_id_spec() == type_id && n <= payload@.len() && f.serial()
            == payload@.subrange(0, n as int),
        r is Err ==> r == Err::<(Fragment, usize), WldError>(WldError::InsufficientBytes),
        type_id == camera_reference::TYPE_ID ==> {
            &&& r is Ok <==> payload@.len() >= 12
            &&& r matches Ok((f, n)) ==> f == (Fragment::CameraReference(
                CameraReferenceFragment::parsed(payload@),
            )) && n == 12
        },
        type_id == mesh_animated_vertices::TYPE_ID ==> {
            &&& r is Ok <==> MeshAnimatedVerticesFragment::parse_ok(payload@)
            &&& r matches Ok((f, n)) ==> f matches Fragment::MeshAnimatedVertices(m)
                && MeshAnimatedVerticesFragment::parsed(payload@, m) && n
                == MeshAnimatedVerticesFragment::total_len(payload@)
        },
        type_id == mesh_animated_vertices_reference::TYPE_ID ==> {
            &&& r is Ok <==> payload@.len() >= 12
            &&& r matches Ok((f, n)) ==> f == (Fragment::MeshAnimatedVerticesReference(
                MeshAnimatedVerticesReferenceFragment::parsed(payload@),
            )) && n == 12
        },
        type_id == polygon_animation_reference::TYPE_ID ==> {
            &&& r is Ok <==> payload@.len() >= 16
            &&& r matches Ok((f, n)) ==> f == (Fragment::PolygonAnimationReference(
                PolygonAnimationReferenceFragment::parsed(payload@),
            )) && n == 16
        },
        type_id == zone_unknown::TYPE_ID ==> (r matches Ok((f, n)) && f == (Fragment::ZoneUnknown(
            ZoneUnknownFragment {  },
        )) && n == 0),
        !registered(type_id) ==> (r matches Ok((f, n)) && f matches Fragment::Unknown(u)
            && u.type_id == type_id && u.bytes@ == payload@ && n == payload@.len()),
{
    if type_id == camera_reference::TYPE_ID {
        match CameraReferenceFragment::parse(payload) {
            Ok((f, n)) => Ok((Fragment::CameraReference(f), n)),
            Err(e) => Err(e),
        }
    } else if type_id == mesh_animated_vertices::TYPE_ID {
        match MeshAnimatedVerticesFragment::parse(payload) {
            Ok((f, n)) => Ok((Fragment::MeshAnimatedVertices(f), n)),
            Err(e) => Err(e),
        }
    } else if type_id == mesh_animated_vertices_reference::TYPE_ID {
        match MeshAnimatedVerticesReferenceFragment::parse(payload) {
            Ok((f, n)) => Ok((Fragment::MeshAnimatedVerticesReference(f), n)),
            Err(e) => Err(e),
        }
    } else if type_id == polygon_animation_reference::TYPE_ID {
        match PolygonAnimationReferenceFragment::parse(payload) {
            Ok((f, n)) => Ok((Fragment::PolygonAnimationReference(f), n)),
            Err(e) => Err(e),
        }
    } else if type_id == zone_unknown::TYPE_ID {
        match ZoneUnknownFragment::parse(payload) {
            Ok((f, n)) => Ok((Fragment::ZoneUnknown(f), n)),
            Err(e) => Err(e),
        }
    } else {
        let bytes = slice_to_vec(payload);
        let n = bytes.len();
        proof {
            assert(payload@.subrange(0, payload@.len() as int) =~= payload@);
        }
        Ok((Fragment::Unknown(UnknownFragment { type_id, bytes }), n))
    }
}

/// The ordered fragment directory of one file, addressed 1-based by
/// fragment references. It is populated once at load time and its slots are
/// only ever replaced, never reordered, inserted or removed: every numeric
/// reference in the file depends on position.
pub struct FragmentDirectory {
    fragments: Vec<Fragment>,
}

impl View for FragmentDirectory {
    type V = Seq<Fragment>;

    closed spec fn view(&self) -> Seq<Fragment> {
        self.fragments@
    }
}

impl FragmentDirectory {
    /// An empty directory, ready to be populated in file order.
    pub fn new() -> (r: FragmentDirectory)
        ensures
            r@ == Seq::<Fragment>::empty(),
    {
        FragmentDirectory { fragments: Vec::new() }
    }

    /// Append the next fragment in directory order.
    pub fn push(&mut self, f: Fragment)
        ensures
            final(self)@ == old(self)@.push(f),
    {
        self.fragments.push(f);
    }

    /// The number of directory slots.
    pub fn len(&self) -> (n: usize)
        ensures
            n == self@.len(),
    {
        self.fragments.len()
    }

    /// The fragment at a 1-based directory position.
    pub fn fragment_at(&self, position: usize) -> (r: Option<&Fragment>)
        ensures
            r is Some <==> 1 <= position <= self@.len(),
            r matches Some(f) ==> *f == self@[position - 1],
    {
        if position >= 1 && position <= self.fragments.len() {
            Some(&self.fragments[position - 1])
        } else {
            None
        }
    }

    /// Replace the decoded representation held at a 1-based position.
    pub fn replace(&mut self, position: usize, f: Fragment)
        requires
            1 <= position <= old(self)@.len(),
        ensures
            final(self)@ == old(self)@.update(position - 1, f),
    {
        self.fragments.set(position - 1, f);
    }
}

impl FragmentRef {
    /// Resolve the reference against a directory: the fragment at the
    /// 1-based position this reference holds, provided the position is in
    /// range and the fragment there carries the expected type identifier.
    /// A "no reference" 0, an out-of-range position and a kind mismatch are
    /// normal, representable states of the format, answered with an empty
    /// resolution rather than an error.
    pub fn resolve<'a>(&self, directory: &'a FragmentDirectory, expected_type_id: u32) -> (r:
        Option<&'a Fragment>)
        ensures
            r is Some <==> (1 <= self.index && self.index <= directory@.len()
                && directory@[self.index - 1].type_id_spec() == expected_type_id),
            r matches Some(f) ==> *f == directory@[self.index - 1],
    {
        if self.index < 1 {
            return None;
        }
        match directory.fragment_at(self.index as usize) {
            Some(f) => {
                if f.type_id() == expected_type_id {
                    Some(f)
                } else {
                    None
                }
            },
            None => None,
        }
    }
}

} // verus!
