//! HID++ 2.0 feature-based operations: the feature table cache, battery
//! feature decoding, firmware, names, kind and polling rate.

use vstd::prelude::*;
use std::collections::{HashMap, HashSet};
use crate::base::ProtocolVersion;
use crate::bytes::{be16, copy_range};
use crate::common::{Battery, BatteryStatus, FirmwareInfo, FirmwareKind};
use crate::error::{protocol_error, Error};
use crate::hidpp10::{opt_view, utf8_string};
use crate::hidpp20_constants::{DeviceKind, FeatureFlag, SupportedFeature};
use crate::text::{push_char, push_decimal, push_hex_byte};

verus! {

broadcast use vstd::std_specs::hash::group_hash_axioms;

/// Identifier of the ROOT feature.
pub const ROOT_ID: u16 = 0x0000;

/// Identifier of the FEATURE_SET feature.
pub const FEATURE_SET_ID: u16 = 0x0001;

/// A cached entry of a device's HID++ 2.0 feature table.
#[derive(Debug, Clone, Copy, PartialEq, Eq, Structural)]
pub struct FeatureEntry {
    /// Index assigned by the device (0x00-0xFF).
    pub index: u8,
    /// Feature version returned by the device.
    pub version: u8,
    /// Feature flags (hidden, obsolete, internal).
    pub flags: FeatureFlag,
}

/// A table entry with the given index, version 0 and no flag.
pub open spec fn spec_plain_entry(index: u8) -> FeatureEntry {
    FeatureEntry { index, version: 0, flags: FeatureFlag { bits: 0 } }
}

/// Lazy cache of a device's HID++ 2.0 feature table.
///
/// Look-ups ask the device on first access (through the request function
/// they are given) and answer from the cache afterwards, a feature or an
/// index the device gave nothing for included. Each answer is recorded as
/// the device gives it, in both maps. A look-up that got no reply at all
/// (a timeout) is recorded as absent like one the device refused, and stays
/// so for the life of the table: the feature or index is not asked again
/// until a new table is made.
#[derive(Debug)]
pub struct FeaturesArray {
    /// `feature_id -> entry` for each discovered feature.
    entries: HashMap<u16, FeatureEntry>,
    /// Reverse map: `index -> feature_id`.
    inverse: HashMap<u8, u16>,
    /// Features the device was asked for and gave no index.
    absent: HashSet<u16>,
    /// Indexes the device was asked about and gave no feature.
    absent_indexes: HashSet<u8>,
    /// Number of features (ROOT included) the device reported.
    pub count: usize,
    /// `Some(false)` once the device is known not to support FEATURE_SET.
    supported: Option<bool>,
}

/// The entry of a feature at `index` with flags byte `flags` and version
/// `version`, as a ROOT or FEATURE_SET reply gives them.
pub open spec fn spec_entry_of(index: u8, flags: u8, version: u8) -> FeatureEntry {
    FeatureEntry {
        index,
        version,
        flags: FeatureFlag { bits: flags & crate::hidpp20_constants::FEATURE_FLAG_ALL },
    }
}

/// Whether `new` holds these maps and sets, with the count and the support
/// state of `old`.
pub open spec fn spec_table_is(
    new: FeaturesArray,
    old: FeaturesArray,
    entries: Map<u16, FeatureEntry>,
    inverse: Map<u8, u16>,
    absent: Set<u16>,
    absent_indexes: Set<u8>,
) -> bool {
    &&& new.entries_view() == entries
    &&& new.inverse_view() == inverse
    &&& new.absent_view() == absent
    &&& new.absent_index_view() == absent_indexes
    &&& new.count_view() == old.count_view()
    &&& new.supported_view() == old.supported_view()
}

/// What asking ROOT for feature `fid` gives when the reply is `reply`: a
/// reply of at least three bytes whose first byte is a non-zero index `i`
/// records `fid` at `i` and gives `Some(i)`; any other reply records `fid`
/// as absent and gives `None`.
pub open spec fn spec_index_answered(
    old: FeaturesArray,
    fid: u16,
    reply: Option<Seq<u8>>,
    r: Option<u8>,
    new: FeaturesArray,
) -> bool {
    let missing = r is None && spec_table_is(
        new,
        old,
        old.entries_view(),
        old.inverse_view(),
        old.absent_view().insert(fid),
        old.absent_index_view(),
    );
    match reply {
        Some(v) => if v.len() >= 3 && v[0] != 0 {
            r == Some(v[0]) && spec_table_is(
                new,
                old,
                old.entries_view().insert(fid, spec_entry_of(v[0], v[1], v[2])),
                old.inverse_view().insert(v[0], fid),
                old.absent_view(),
                old.absent_index_view(),
            )
        } else {
            missing
        },
        None => missing,
    }
}

/// The answer the table holds for a look-up of feature `fid`: `Some(Some(i))`
/// for a feature cached at index `i`, `Some(None)` for one recorded absent,
/// `None` while the device was not asked.
pub open spec fn spec_cached_index(t: FeaturesArray, fid: u16) -> Option<Option<u8>> {
    if t.entries_view().contains_key(fid) {
        Some(Some(t.entries_view()[fid].index))
    } else if t.absent_view().contains(fid) {
        Some(None)
    } else {
        None
    }
}

/// Whether `new` keeps every index look-up answer that `old` holds: cached
/// entries stay as they are, and a feature recorded absent stays absent.
pub open spec fn spec_answers_kept(old: FeaturesArray, new: FeaturesArray) -> bool {
    &&& new.count_view() == old.count_view()
    &&& forall|f: u16| #[trigger]
        old.entries_view().contains_key(f) ==> new.entries_view().contains_key(f) && new.entries_view()[f]
            == old.entries_view()[f]
    &&& forall|f: u16| #[trigger]
        old.absent_view().contains(f) && !old.entries_view().contains_key(f) ==> new.absent_view().contains(f)
            && !new.entries_view().contains_key(f)
}

/// Index look-ups keep their answers over any number of calls: a table that
/// keeps the answers of one that keeps the answers of `t1` keeps those of
/// `t1`.
pub proof fn lemma_answers_kept_trans(t1: FeaturesArray, t2: FeaturesArray, t3: FeaturesArray)
    requires
        spec_answers_kept(t1, t2),
        spec_answers_kept(t2, t3),
    ensures
        spec_answers_kept(t1, t3),
{
}

/// Every later look-up of a feature is answered from the cache: once the
/// table holds an answer for `fid`, every table that keeps its answers (as
/// each `get_index` call does) holds the same answer, and `get_index` then
/// gives it without asking the device.
pub proof fn lemma_lookup_answered_from_cache(earlier: FeaturesArray, later: FeaturesArray, fid: u16, x: Option<u8>)
    requires
        spec_cached_index(earlier, fid) == Some(x),
        spec_answers_kept(earlier, later),
    ensures
        spec_cached_index(later, fid) == Some(x),
{
}

/// Whether table `t` records feature `fid` at index `i` in its reverse map.
pub open spec fn spec_index_records(t: FeaturesArray, i: u8, fid: u16) -> bool {
    t.inverse_view().contains_key(i) && t.inverse_view()[i] == fid
}

/// An index that the device hands out for a feature maps back to that
/// feature: after a look-up of `f` that asked the device and got index `i`,
/// the table records `f` at `i`, so `get_feature(i, ..)` answers `f` from the
/// cache.
pub proof fn lemma_get_feature_after_get_index(
    old: FeaturesArray,
    f: SupportedFeature,
    reply: Option<Seq<u8>>,
    i: u8,
    new: FeaturesArray,
)
    requires
        spec_index_answered(old, crate::hidpp20_constants::spec_feature_id(f), reply, Some(i), new),
    ensures
        spec_index_records(new, i, crate::hidpp20_constants::spec_feature_id(f)),
        crate::hidpp20_constants::spec_feature_of_id(new.inverse_view()[i]) == Some(f),
{
    crate::hidpp20_constants::lemma_feature_id_roundtrip(f);
}

/// While the table records feature `f` at index `i` (no later look-up
/// recorded another feature there), `get_feature(i, ..)` answers `f` from
/// the cache.
pub proof fn lemma_feature_behind_index(t: FeaturesArray, f: SupportedFeature, i: u8)
    requires
        spec_index_records(t, i, crate::hidpp20_constants::spec_feature_id(f)),
    ensures
        t.inverse_view().contains_key(i),
        crate::hidpp20_constants::spec_feature_of_id(t.inverse_view()[i]) == Some(f),
{
    crate::hidpp20_constants::lemma_feature_id_roundtrip(f);
}

/// What asking FEATURE_SET for the feature at `index` gives when the reply
/// is `reply`: a reply of at least four bytes naming a feature `f` records
/// `f` at `index` and gives the feature `f` stands for (`None` for an
/// unknown one); any other reply records `index` as absent and gives `None`.
pub open spec fn spec_feature_answered(
    old: FeaturesArray,
    index: u8,
    reply: Option<Seq<u8>>,
    r: Option<SupportedFeature>,
    new: FeaturesArray,
) -> bool {
    let missing = r is None && spec_table_is(
        new,
        old,
        old.entries_view(),
        old.inverse_view(),
        old.absent_view(),
        old.absent_index_view().insert(index),
    );
    match reply {
        Some(v) => {
            let fid = crate::bytes::spec_be16(v[0], v[1]);
            if v.len() >= 4 {
                r == crate::hidpp20_constants::spec_feature_of_id(fid) && spec_table_is(
                    new,
                    old,
                    old.entries_view().insert(fid, spec_entry_of(index, v[2], v[3])),
                    old.inverse_view().insert(index, fid),
                    old.absent_view(),
                    old.absent_index_view(),
                )
            } else {
                missing
            }
        },
        None => missing,
    }
}

/// What initialising gives when FEATURE_SET, at index `k`, answers the
/// count request with `reply`: a reply with a first byte `c` initialises
/// the table with `c + 1` features, ROOT at 0 and FEATURE_SET at `k`; no
/// reply, or an empty one, leaves the table as it was.
pub open spec fn spec_count_answered(old: FeaturesArray, k: u8, reply: Option<Seq<u8>>, r: bool, new: FeaturesArray) -> bool {
    match reply {
        Some(c) => if c.len() > 0 {
            &&& r
            &&& new.count_view() == c[0] + 1
            &&& new.supported_view() == Some(true)
            &&& new.entries_view() == map![ROOT_ID => spec_plain_entry(0), FEATURE_SET_ID => spec_plain_entry(k)]
            &&& new.inverse_view() == map![0u8 => ROOT_ID, k => FEATURE_SET_ID]
            &&& new.absent_view() == old.absent_view()
            &&& new.absent_index_view() == old.absent_index_view()
        } else {
            !r && new == old
        },
        None => !r && new == old,
    }
}

/// The table after ROOT gave no usable FEATURE_SET index: marked
/// unsupported, nothing else changed.
pub open spec fn spec_marked_unsupported(old: FeaturesArray, new: FeaturesArray) -> bool {
    &&& new.supported_view() == Some(false)
    &&& new.count_view() == old.count_view()
    &&& new.entries_view() == old.entries_view()
    &&& new.inverse_view() == old.inverse_view()
    &&& new.absent_view() == old.absent_view()
    &&& new.absent_index_view() == old.absent_index_view()
}

impl FeaturesArray {
    /// The cached feature table: `feature_id -> entry`.
    pub closed spec fn entries_view(&self) -> Map<u16, FeatureEntry> {
        self.entries@
    }

    /// The number of features the device reported (0 until initialised).
    pub closed spec fn count_view(&self) -> usize {
        self.count
    }

    /// The cached reverse map: `index -> feature_id`.
    pub closed spec fn inverse_view(&self) -> Map<u8, u16> {
        self.inverse@
    }

    /// The features the device gave no index for.
    pub closed spec fn absent_view(&self) -> Set<u16> {
        self.absent@
    }

    /// The indexes the device gave no feature for.
    pub closed spec fn absent_index_view(&self) -> Set<u8> {
        self.absent_indexes@
    }

    /// Whether the device is known to support, or not to support, the
    /// feature set (`None` while unknown).
    pub closed spec fn supported_view(&self) -> Option<bool> {
        self.supported
    }

    /// The cache invariant: it is initialised exactly when the device is
    /// known to support the feature set, and then ROOT and FEATURE_SET are
    /// cached and at most 256 features are counted; nothing is cached
    /// before; each entry's index is in the reverse map, and each feature
    /// the reverse map names has an entry.
    pub closed spec fn wf(&self) -> bool {
        &&& (self.count > 0) == (self.supported == Some(true))
        &&& self.count <= 256
        &&& self.count > 0 ==> self.entries@.contains_key(ROOT_ID) && self.entries@.contains_key(
            FEATURE_SET_ID,
        )
        &&& self.count == 0 ==> self.entries@.dom() =~= Set::empty() && self.inverse@.dom() =~= Set::empty()
            && self.absent@ =~= Set::empty() && self.absent_indexes@ =~= Set::empty()
        &&& forall|f: u16| #[trigger]
            self.entries@.contains_key(f) ==> self.inverse@.contains_key(self.entries@[f].index)
        &&& forall|j: u8| #[trigger] self.inverse@.contains_key(j) ==> self.entries@.contains_key(self.inverse@[j])
    }

    pub fn new() -> (r: Self)
        ensures
            r.wf(),
            r.count_view() == 0,
            r.entries_view() == Map::<u16, FeatureEntry>::empty(),
            r.inverse_view() == Map::<u8, u16>::empty(),
            r.absent_view() == Set::<u16>::empty(),
            r.absent_index_view() == Set::<u8>::empty(),
            r.supported_view() is None,
    {
        let r = FeaturesArray {
            entries: HashMap::new(),
            inverse: HashMap::new(),
            absent: HashSet::new(),
            absent_indexes: HashSet::new(),
            count: 0,
            supported: None,
        };
        assert(r.entries@.dom() =~= Set::empty());
        assert(r.inverse@.dom() =~= Set::empty());
        r
    }

    /// Whether the feature table has been initialised.
    pub fn is_initialised(&self) -> (r: bool)
        ensures
            r == (self.count_view() > 0),
    {
        self.count > 0
    }

    /// Record a feature entry in both maps.
    fn insert(&mut self, feature_id: u16, index: u8, version: u8, flags: FeatureFlag)
        ensures
            final(self).entries_view() == old(self).entries_view().insert(
                feature_id,
                FeatureEntry { index, version, flags },
            ),
            final(self).inverse_view() == old(self).inverse_view().insert(index, feature_id),
            final(self).absent_view() == old(self).absent_view(),
            final(self).absent_index_view() == old(self).absent_index_view(),
            final(self).count_view() == old(self).count_view(),
            final(self).supported_view() == old(self).supported_view(),
    {
        self.entries.insert(feature_id, FeatureEntry { index, version, flags });
        self.inverse.insert(index, feature_id);
    }

    /// Initialise the feature table: ask ROOT for the index of FEATURE_SET,
    /// then FEATURE_SET for the feature count.
    ///
    /// Returns `true` on success, `false` when the device does not support
    /// HID++ 2.0 features or did not answer. `request_fn(request_id,
    /// params)` sends a raw request and returns the reply payload. Nothing is
    /// asked again once the table is initialised or known unsupported: no
    /// ROOT reply, an empty one or index 0 marks the device unsupported; no
    /// count reply (or an empty one) leaves the table as it was.
    pub fn init<F>(&mut self, mut request_fn: F) -> (r: bool) where
        F: FnMut(u16, &[u8]) -> Option<Vec<u8>>,

        requires
            old(self).wf(),
            forall|id: u16, p: &[u8]| #[trigger] request_fn.requires((id, p)),
        ensures
            final(self).wf(),
            r == (final(self).count_view() > 0),
            old(self).supported_view() == Some(false) ==> !r && *final(self) == *old(self),
            old(self).count_view() > 0 ==> r && *final(self) == *old(self),
            old(self).supported_view() != Some(false) && old(self).count_view() == 0 ==> exists|
                p: &[u8],
                o: Option<Vec<u8>>,
            |
                #[trigger] call_ensures(request_fn, (0x0000u16, p), o) && p@ == seq![0x00u8, 0x01u8] && match o {
                    Some(v) => if v@.len() > 0 && v@[0] != 0 {
                        exists|q: &[u8], c: Option<Vec<u8>>|
                            #[trigger] call_ensures(request_fn, ((v@[0] as u16 * 256) as u16, q), c) && q@.len()
                                == 0 && spec_count_answered(*old(self), v@[0], opt_view(c), r, *final(self))
                    } else {
                        !r && spec_marked_unsupported(*old(self), *final(self))
                    },
                    None => !r && spec_marked_unsupported(*old(self), *final(self)),
                },
    {
        if self.supported == Some(false) {
            return false;
        }
        if self.is_initialised() {
            return true;
        }
        let mut params: Vec<u8> = Vec::new();
        params.push(0x00);
        params.push(0x01);
        assert(params@ == seq![0x00u8, 0x01u8]);
        let ps: &[u8] = params.as_slice();
        let reply = request_fn(0x0000, ps);
        let ghost o = reply;
        let reply = match reply {
            Some(r) => r,
            None => {
                self.supported = Some(false);
                assert(call_ensures(request_fn, (0x0000u16, ps), o));
                return false;
            },
        };
        if reply.len() == 0 || reply[0] == 0 {
            self.supported = Some(false);
            assert(call_ensures(request_fn, (0x0000u16, ps), o));
            return false;
        }
        let fs_index: u8 = reply[0];
        let empty: Vec<u8> = Vec::new();
        let es: &[u8] = empty.as_slice();
        let count_reply = request_fn((fs_index as u16) * 256, es);
        let ghost c = count_reply;
        assert(call_ensures(request_fn, ((fs_index as u16 * 256) as u16, es), c));
        let count: usize = match count_reply {
            Some(r) => {
                if r.len() == 0 {
                    assert(call_ensures(request_fn, (0x0000u16, ps), o));
                    return false;
                }
                r[0] as usize + 1
            },
            None => {
                assert(call_ensures(request_fn, (0x0000u16, ps), o));
                return false;
            },
        };
        self.count = count;
        self.supported = Some(true);
        self.insert(ROOT_ID, 0, 0, FeatureFlag::empty());
        self.insert(FEATURE_SET_ID, fs_index, 0, FeatureFlag::empty());
        assert(self.entries_view() =~= map![ROOT_ID => spec_plain_entry(0), FEATURE_SET_ID => spec_plain_entry(fs_index)]);
        assert(self.inverse_view() =~= map![0u8 => ROOT_ID, fs_index => FEATURE_SET_ID]);
        assert(call_ensures(request_fn, (0x0000u16, ps), o));
        true
    }

    /// The index of `feature`: the cached answer when the device was asked
    /// before, else asked of the device (and cached); `None` when the table
    /// is not initialised or the device gives no usable index (no reply, a
    /// reply shorter than three bytes, or index 0). A missing reply is
    /// cached as absent too, so a timeout hides the feature for the life of
    /// the table.
    pub fn get_index<F>(&mut self, feature: SupportedFeature, mut request_fn: F) -> (r: Option<u8>) where
        F: FnMut(u16, &[u8]) -> Option<Vec<u8>>,

        requires
            old(self).wf(),
            forall|id: u16, p: &[u8]| #[trigger] request_fn.requires((id, p)),
        ensures
            final(self).wf(),
            ({
                let fid = crate::hidpp20_constants::spec_feature_id(feature);
                &&& old(self).entries_view().contains_key(fid) ==> *final(self) == *old(self) && r == Some(
                    old(self).entries_view()[fid].index,
                )
                &&& !old(self).entries_view().contains_key(fid) && (old(self).absent_view().contains(fid)
                    || old(self).count_view() == 0) ==> *final(self) == *old(self) && r is None
                &&& spec_cached_index(*old(self), fid) matches Some(x) ==> r == x && *final(self) == *old(self)
                &&& spec_answers_kept(*old(self), *final(self))
                &&& old(self).count_view() > 0 ==> spec_cached_index(*final(self), fid) == Some(r)
                &&& !old(self).entries_view().contains_key(fid) ==> (r matches Some(i) ==> spec_index_records(
                    *final(self),
                    i,
                    fid,
                ))
                &&& !old(self).entries_view().contains_key(fid) && !old(self).absent_view().contains(fid)
                    && old(self).count_view() > 0 ==> exists|p: &[u8], o: Option<Vec<u8>>|
                    #[trigger] call_ensures(request_fn, (0x0000u16, p), o) && p@ == crate::base::spec_id_bytes(fid)
                        && spec_index_answered(*old(self), fid, opt_view(o), r, *final(self))
            }),
    {
        let fid: u16 = feature.as_u16();
        if let Some(entry) = self.entries.get(&fid) {
            return Some(entry.index);
        }
        if self.absent.contains(&fid) || !self.is_initialised() {
            return None;
        }
        let mut params: Vec<u8> = Vec::new();
        params.push((fid / 256) as u8);
        params.push((fid % 256) as u8);
        assert(params@ == crate::base::spec_id_bytes(fid));
        let ps: &[u8] = params.as_slice();
        let reply = request_fn(0x0000, ps);
        let ghost o = reply;
        assert(call_ensures(request_fn, (0x0000u16, ps), o));
        let usable: Option<(u8, u8, u8)> = match &reply {
            Some(v) => if v.len() >= 3 && v[0] != 0 {
                Some((v[0], v[1], v[2]))
            } else {
                None
            },
            None => None,
        };
        match usable {
            Some((index, flags_byte, version)) => {
                let flags = FeatureFlag::from_bits_truncate(flags_byte);
                self.insert(fid, index, version, flags);
                proof {
                    assert forall|f: u16| #[trigger] self.entries@.contains_key(f) implies self.inverse@.contains_key(
                        self.entries@[f].index,
                    ) by {
                        if f != fid {
                            assert(old(self).entries@.contains_key(f));
                        }
                    }
                    assert forall|j: u8| #[trigger] self.inverse@.contains_key(j) implies self.entries@.contains_key(
                        self.inverse@[j],
                    ) by {
                        if j != index {
                            assert(old(self).inverse@.contains_key(j));
                        }
                    }
                }
                Some(index)
            },
            None => {
                self.absent.insert(fid);
                None
            },
        }
    }

    /// The feature at `index`: the cached answer when the device was asked
    /// before, else asked of FEATURE_SET (and cached); `None` when the table
    /// is not initialised, the device gives no usable answer (no reply, or a
    /// reply shorter than four bytes), or the feature is unknown. A missing
    /// reply is cached as absent too, for the life of the table.
    pub fn get_feature<F>(&mut self, index: u8, mut request_fn: F) -> (r: Option<SupportedFeature>) where
        F: FnMut(u16, &[u8]) -> Option<Vec<u8>>,

        requires
            old(self).wf(),
            forall|id: u16, p: &[u8]| #[trigger] request_fn.requires((id, p)),
        ensures
            final(self).wf(),
            old(self).inverse_view().contains_key(index) ==> *final(self) == *old(self) && r
                == crate::hidpp20_constants::spec_feature_of_id(old(self).inverse_view()[index]),
            !old(self).inverse_view().contains_key(index) && (old(self).absent_index_view().contains(index)
                || old(self).count_view() == 0) ==> *final(self) == *old(self) && r is None,
            !old(self).inverse_view().contains_key(index) && !old(self).absent_index_view().contains(index)
                && old(self).count_view() > 0 ==> exists|p: &[u8], o: Option<Vec<u8>>|
                #[trigger] call_ensures(
                    request_fn,
                    ((old(self).entries_view()[FEATURE_SET_ID].index as u16 * 256 + 0x10) as u16, p),
                    o,
                ) && p@ == seq![index] && spec_feature_answered(*old(self), index, opt_view(o), r, *final(self)),
    {
        if let Some(fid) = self.inverse.get(&index) {
            return SupportedFeature::from_u16(*fid);
        }
        if self.absent_indexes.contains(&index) || !self.is_initialised() {
            return None;
        }
        let fs_id: u16 = FEATURE_SET_ID;
        let fs_index: u8 = match self.entries.get(&fs_id) {
            Some(e) => e.index,
            None => return None,
        };
        let mut params: Vec<u8> = Vec::new();
        params.push(index);
        assert(params@ == seq![index]);
        let ps: &[u8] = params.as_slice();
        let reply = request_fn((fs_index as u16) * 256 + 0x10, ps);
        let ghost o = reply;
        assert(fs_index == old(self).entries_view()[FEATURE_SET_ID].index);
        assert(call_ensures(
            request_fn,
            ((old(self).entries_view()[FEATURE_SET_ID].index as u16 * 256 + 0x10) as u16, ps),
            o,
        ));
        let usable: Option<(u16, u8, u8)> = match &reply {
            Some(v) => if v.len() >= 4 {
                Some((be16(v[0], v[1]), v[2], v[3]))
            } else {
                None
            },
            None => None,
        };
        match usable {
            Some((fid, flags_byte, version)) => {
                let flags = FeatureFlag::from_bits_truncate(flags_byte);
                self.insert(fid, index, version, flags);
                proof {
                    crate::hidpp20_constants::lemma_feature_of_id_roundtrip(fid);
                    assert forall|f: u16| #[trigger] self.entries@.contains_key(f) implies self.inverse@.contains_key(
                        self.entries@[f].index,
                    ) by {
                        if f != fid {
                            assert(old(self).entries@.contains_key(f));
                        }
                    }
                    assert forall|j: u8| #[trigger] self.inverse@.contains_key(j) implies self.entries@.contains_key(
                        self.inverse@[j],
                    ) by {
                        if j != index {
                            assert(old(self).inverse@.contains_key(j));
                        }
                    }
                }
                let res = SupportedFeature::from_u16(fid);
                assert(FeatureEntry { index, version, flags } == spec_entry_of(index, flags_byte, version));
                res
            },
            None => {
                self.absent_indexes.insert(index);
                None
            },
        }
    }

    /// Whether the device supports `feature` (see [`FeaturesArray::get_index`]).
    pub fn contains<F>(&mut self, feature: SupportedFeature, request_fn: F) -> (r: bool) where
        F: FnMut(u16, &[u8]) -> Option<Vec<u8>>,

        requires
            old(self).wf(),
            forall|id: u16, p: &[u8]| #[trigger] request_fn.requires((id, p)),
        ensures
            final(self).wf(),
            r == final(self).entries_view().contains_key(crate::hidpp20_constants::spec_feature_id(feature)),
            old(self).entries_view().contains_key(crate::hidpp20_constants::spec_feature_id(feature))
                ==> r && *final(self) == *old(self),
    {
        self.get_index(feature, request_fn).is_some()
    }

    /// The cached entry of `feature`, if any.
    pub fn get_entry(&self, feature: SupportedFeature) -> (r: Option<&FeatureEntry>)
        ensures
            match r {
                Some(e) => self.entries_view().contains_key(
                    crate::hidpp20_constants::spec_feature_id(feature),
                ) && *e == self.entries_view()[crate::hidpp20_constants::spec_feature_id(feature)],
                None => !self.entries_view().contains_key(
                    crate::hidpp20_constants::spec_feature_id(feature),
                ),
            },
    {
        let fid: u16 = feature.as_u16();
        self.entries.get(&fid)
    }
}

impl Default for FeaturesArray {
    fn default() -> (r: Self)
        ensures
            r.wf(),
            r.count_view() == 0,
    {
        FeaturesArray::new()
    }
}

/// The status a BATTERY_STATUS or UNIFIED_BATTERY status value denotes.
pub open spec fn spec_status_of(v: u8) -> Option<BatteryStatus> {
    if v == 0x00 {
        Some(BatteryStatus::Discharging)
    } else if v == 0x01 {
        Some(BatteryStatus::Recharging)
    } else if v == 0x02 {
        Some(BatteryStatus::AlmostFull)
    } else if v == 0x03 {
        Some(BatteryStatus::Full)
    } else if v == 0x04 {
        Some(BatteryStatus::SlowRecharge)
    } else if v == 0x05 {
        Some(BatteryStatus::InvalidBattery)
    } else if v == 0x06 {
        Some(BatteryStatus::ThermalError)
    } else {
        None
    }
}

fn status_of(v: u8) -> (r: Option<BatteryStatus>)
    ensures
        r == spec_status_of(v),
{
    match v {
        0x00 => Some(BatteryStatus::Discharging),
        0x01 => Some(BatteryStatus::Recharging),
        0x02 => Some(BatteryStatus::AlmostFull),
        0x03 => Some(BatteryStatus::Full),
        0x04 => Some(BatteryStatus::SlowRecharge),
        0x05 => Some(BatteryStatus::InvalidBattery),
        0x06 => Some(BatteryStatus::ThermalError),
        _ => None,
    }
}

/// The battery a BATTERY_STATUS (0x1000) report describes: level, next
/// level, and the status in the low nibble of byte 2.
pub open spec fn spec_decipher_battery_status(report: Seq<u8>) -> Option<Battery> {
    if report.len() < 3 {
        None
    } else {
        Some(
            crate::common::spec_battery(
                Some(report[0]),
                Some(report[1]),
                spec_status_of(report[2] & 0x0F),
                None,
            ),
        )
    }
}

/// Decode a BATTERY_STATUS (0x1000) report.
pub fn decipher_battery_status(report: &[u8]) -> (r: Option<Battery>)
    ensures
        r == spec_decipher_battery_status(report@),
{
    if report.len() < 3 {
        return None;
    }
    let status = status_of(report[2] & 0x0F);
    Some(Battery::new(Some(report[0]), Some(report[1]), status, None))
}

/// The battery a UNIFIED_BATTERY (0x1004) report describes: level, next
/// level, status byte and charge type (ignored).
pub open spec fn spec_decipher_battery_unified(report: Seq<u8>) -> Option<Battery> {
    if report.len() < 4 {
        None
    } else {
        Some(
            crate::common::spec_battery(
                Some(report[0]),
                Some(report[1]),
                spec_status_of(report[2]),
                None,
            ),
        )
    }
}

/// Decode a UNIFIED_BATTERY (0x1004) report.
pub fn decipher_battery_unified(report: &[u8]) -> (r: Option<Battery>)
    ensures
        r == spec_decipher_battery_unified(report@),
{
    if report.len() < 4 {
        return None;
    }
    let status = status_of(report[2]);
    Some(Battery::new(Some(report[0]), Some(report[1]), status, None))
}

/// The approximate level of a battery voltage in mV: 0 % at 3.5 V or less,
/// 100 % at 4.2 V or more, linear (rounded down) between.
pub open spec fn spec_voltage_level(voltage: u16) -> u8 {
    if voltage >= 4200 {
        100
    } else if voltage <= 3500 {
        0
    } else {
        ((voltage - 3500) * 100 / 700) as u8
    }
}

/// The battery a BATTERY_VOLTAGE (0x1001) report describes: big-endian
/// voltage in mV, charging when bit 7 of the flags is set.
pub open spec fn spec_decipher_battery_voltage(report: Seq<u8>) -> Option<Battery> {
    if report.len() < 3 {
        None
    } else {
        let voltage = crate::bytes::spec_be16(report[0], report[1]);
        let status = if report[2] & 0x80 != 0 {
            BatteryStatus::Recharging
        } else {
            BatteryStatus::Discharging
        };
        Some(
            crate::common::spec_battery(
                Some(spec_voltage_level(voltage)),
                None,
                Some(status),
                Some(voltage),
            ),
        )
    }
}

/// Decode a BATTERY_VOLTAGE (0x1001) report.
pub fn decipher_battery_voltage(report: &[u8]) -> (r: Option<Battery>)
    ensures
        r == spec_decipher_battery_voltage(report@),
{
    if report.len() < 3 {
        return None;
    }
    let voltage: u16 = be16(report[0], report[1]);
    let flags: u8 = report[2];
    let status: BatteryStatus = if flags & 0x80 != 0 {
        BatteryStatus::Recharging
    } else {
        BatteryStatus::Discharging
    };
    let level: u8 = if voltage >= 4200 {
        100
    } else if voltage <= 3500 {
        0
    } else {
        let scaled: u32 = ((voltage - 3500) as u32) * 100 / 700;
        assert(scaled < 100);
        scaled as u8
    };
    Some(Battery::new(Some(level), None, Some(status), Some(voltage)))
}

/// A UNIFIED_BATTERY report of four bytes or more describes the battery
/// with the level of byte 0, the next level of byte 1 and the status the
/// whole of byte 2 names (0 discharging, 1 recharging, 2 almost full,
/// 3 full, 4 slow recharge, 5 invalid battery, 6 thermal error, anything
/// else no status), with no voltage; a shorter one describes nothing.
pub proof fn lemma_unified_battery_fields(report: Seq<u8>)
    ensures
        report.len() < 4 <==> spec_decipher_battery_unified(report) is None,
        report.len() >= 4 ==> (spec_decipher_battery_unified(report) matches Some(b) && {
            &&& b.level == Some(report[0])
            &&& b.next_level == Some(report[1])
            &&& b.voltage is None
            &&& b.light_level is None
            &&& (report[2] == 0 ==> b.status == Some(BatteryStatus::Discharging))
            &&& (report[2] == 1 ==> b.status == Some(BatteryStatus::Recharging))
            &&& (report[2] == 2 ==> b.status == Some(BatteryStatus::AlmostFull))
            &&& (report[2] == 3 ==> b.status == Some(BatteryStatus::Full))
            &&& (report[2] == 4 ==> b.status == Some(BatteryStatus::SlowRecharge))
            &&& (report[2] == 5 ==> b.status == Some(BatteryStatus::InvalidBattery))
            &&& (report[2] == 6 ==> b.status == Some(BatteryStatus::ThermalError))
            &&& (report[2] > 6 ==> b.status is None)
        }),
{
}

/// A BATTERY_STATUS report of three bytes or more describes the battery
/// with the level of byte 0, the next level of byte 1 and the status the
/// low nibble of byte 2 names (0 discharging, 1 recharging, 2 almost full,
/// 3 full, 4 slow recharge, 5 invalid battery, 6 thermal error, anything
/// else no status), with no voltage; a shorter one describes nothing.
pub proof fn lemma_battery_status_fields(report: Seq<u8>)
    ensures
        report.len() < 3 <==> spec_decipher_battery_status(report) is None,
        report.len() >= 3 ==> (spec_decipher_battery_status(report) matches Some(b) && {
            &&& b.level == Some(report[0])
            &&& b.next_level == Some(report[1])
            &&& b.voltage is None
            &&& b.light_level is None
            &&& (report[2] % 16 == 0 ==> b.status == Some(BatteryStatus::Discharging))
            &&& (report[2] % 16 == 1 ==> b.status == Some(BatteryStatus::Recharging))
            &&& (report[2] % 16 == 2 ==> b.status == Some(BatteryStatus::AlmostFull))
            &&& (report[2] % 16 == 3 ==> b.status == Some(BatteryStatus::Full))
            &&& (report[2] % 16 == 4 ==> b.status == Some(BatteryStatus::SlowRecharge))
            &&& (report[2] % 16 == 5 ==> b.status == Some(BatteryStatus::InvalidBattery))
            &&& (report[2] % 16 == 6 ==> b.status == Some(BatteryStatus::ThermalError))
            &&& (report[2] % 16 > 6 ==> b.status is None)
        }),
{
    if report.len() >= 3 {
        let x = report[2];
        assert(x & 0x0F == x % 16) by (bit_vector);
    }
}

/// A BATTERY_VOLTAGE report of three bytes or more describes the battery
/// with the big-endian voltage of bytes 0 and 1, recharging exactly when
/// bit 7 of byte 2 is set (discharging otherwise), no next level, and the
/// level of that voltage: 0 at 3500 mV or less, 100 at 4200 mV or more,
/// and between them the whole percentage of the way from 3500 to 4200 mV
/// (rounded down); a shorter report describes nothing.
pub proof fn lemma_battery_voltage_fields(report: Seq<u8>)
    ensures
        report.len() < 3 <==> spec_decipher_battery_voltage(report) is None,
        report.len() >= 3 ==> (spec_decipher_battery_voltage(report) matches Some(b) && {
            let v = report[0] * 256 + report[1];
            &&& b.voltage matches Some(x) && x == v
            &&& b.next_level is None
            &&& b.light_level is None
            &&& (report[2] >= 128 ==> b.status == Some(BatteryStatus::Recharging))
            &&& (report[2] < 128 ==> b.status == Some(BatteryStatus::Discharging))
            &&& b.level matches Some(l) && (v <= 3500 ==> l == 0) && (v >= 4200 ==> l == 100) && (3500 < v
                < 4200 ==> l * 700 <= (v - 3500) * 100 < (l + 1) * 700)
        }),
{
    if report.len() >= 3 {
        let f = report[2];
        assert((f & 0x80 != 0) == (f >= 128)) by (bit_vector);
        let v = crate::bytes::spec_be16(report[0], report[1]);
        if 3500 < v < 4200 {
            let q = (v - 3500) * 100 / 700;
            assert(q * 700 <= (v - 3500) * 100 < (q + 1) * 700) by (nonlinear_arith)
                requires
                    q == (v - 3500) * 100 / 700,
                    3500 < v,
            ;
            assert(q < 100);
        }
    }
}

/// The voltage level is a percentage and never falls as the voltage rises.
pub proof fn lemma_voltage_level_monotonic(v1: u16, v2: u16)
    requires
        v1 <= v2,
    ensures
        spec_voltage_level(v1) <= spec_voltage_level(v2),
        spec_voltage_level(v2) <= 100,
{
    if 3500 < v1 && v2 < 4200 {
        assert((v1 - 3500) * 100 <= (v2 - 3500) * 100) by (nonlinear_arith)
            requires
                v1 <= v2,
        ;
        assert((v1 - 3500) * 100 / 700 <= (v2 - 3500) * 100 / 700) by (nonlinear_arith)
            requires
                (v1 - 3500) * 100 <= (v2 - 3500) * 100,
                3500 < v1,
        ;
    }
}

/// Anything that can make HID++ 2.0 feature calls.
pub trait Hidpp20Device {
    /// Whether `reply` is an answer the device may give to a call of
    /// `function` of `feature` with `params`; `None` stands for no answer
    /// (feature not supported, device offline, or timeout).
    spec fn answers_feature(
        &self,
        feature: SupportedFeature,
        function: u8,
        params: Seq<u8>,
        reply: Option<Seq<u8>>,
    ) -> bool;

    /// Whether the device may fail a call of `function` of `feature` with
    /// `params` with error `e`.
    spec fn rejects_feature(&self, feature: SupportedFeature, function: u8, params: Seq<u8>, e: Error) -> bool;

    /// Whether the device is online.
    spec fn online_spec(&self) -> bool;

    /// The protocol version the device speaks.
    spec fn feature_protocol_spec(&self) -> ProtocolVersion;

    /// Make a HID++ 2.0 feature call and return the reply payload. The
    /// implementation resolves `feature` to its index on the device and
    /// sends `(index << 8) | function`.
    fn feature_request(&self, feature: SupportedFeature, function: u8, params: &[u8]) -> (r: Result<
        Option<Vec<u8>>,
        Error,
    >)
        ensures
            r matches Ok(o) ==> self.answers_feature(feature, function, params@, opt_view(o)),
            r matches Err(e) ==> self.rejects_feature(feature, function, params@, e),
    ;

    fn is_online(&self) -> (r: bool)
        ensures
            r == self.online_spec(),
    ;

    fn protocol(&self) -> (r: ProtocolVersion)
        ensures
            r == self.feature_protocol_spec(),
    ;
}

/// The text that bytes encode, invalid UTF-8 sequences replaced by U+FFFD.
pub uninterp spec fn utf8_lossy(bytes: Seq<u8>) -> Seq<char>;

/// The text that bytes encode, invalid sequences replaced.
///
/// Trusted: calls `String::from_utf8_lossy`; std documents that the result
/// depends on the bytes alone and that valid UTF-8 is decoded unchanged.
#[verifier::external_body]
pub(crate) fn lossy_string(bytes: &[u8]) -> (r: String)
    ensures
        r@ == utf8_lossy(bytes@),
        vstd::utf8::valid_utf8(bytes@) ==> r@ == vstd::utf8::decode_utf8(bytes@),
{
    String::from_utf8_lossy(bytes).into_owned()
}

/// The leading bytes of `s` before its first zero byte.
pub open spec fn spec_until_zero(s: Seq<u8>) -> Seq<u8>
    decreases s.len(),
{
    if s.len() == 0 || s[0] == 0 {
        seq![]
    } else {
        seq![s[0]] + spec_until_zero(s.skip(1))
    }
}

/// The version text of a firmware entry: `MM.mm`, with `.BHHLL` added when
/// the build number is not zero (upper case hexadecimal).
pub open spec fn spec_fw_version(data: Seq<u8>) -> Seq<char> {
    let base = crate::text::spec_hex_byte(data[4], true) + seq!['.'] + crate::text::spec_hex_byte(
        data[5],
        true,
    );
    if data[6] == 0 && data[7] == 0 {
        base
    } else {
        base + seq!['.', 'B'] + crate::text::spec_hex_byte(data[6], true)
            + crate::text::spec_hex_byte(data[7], true)
    }
}

/// Whether `info` is what a DEVICE_FW_VERSION entry reply `data` describes.
pub open spec fn spec_fw_entry(data: Seq<u8>, info: FirmwareInfo) -> bool {
    let level = data[0] & 0x0F;
    if level == 0 || level == 1 {
        let extras = spec_until_zero(data.skip(9));
        &&& data.len() >= 9
        &&& info.kind == crate::common::spec_firmware_kind(level)
        &&& info.name@ == utf8_lossy(data.subrange(1, 4))
        &&& info.version@ == spec_fw_version(data)
        &&& (extras.len() == 0 ==> info.extras is None)
        &&& (extras.len() > 0 ==> (info.extras matches Some(e) && e@ == extras))
    } else if level == 2 {
        &&& data.len() >= 2
        &&& info.kind == FirmwareKind::Hardware
        &&& info.name@ == Seq::<char>::empty()
        &&& info.version@ == crate::text::spec_decimal(data[1] as nat)
        &&& info.extras is None
    } else {
        &&& info.kind == FirmwareKind::Other
        &&& info.name@ == Seq::<char>::empty()
        &&& info.version@ == Seq::<char>::empty()
        &&& info.extras is None
    }
}

/// A firmware or bootloader entry gives the major version (byte 4) and
/// then the minor version (byte 5) in upper-case hexadecimal, separated by
/// a dot; when the build number (bytes 6 and 7) is not zero, `.B` and its
/// four digits, high byte first, follow. The kind is firmware for type 0
/// and bootloader for type 1.
pub proof fn lemma_fw_version_text(data: Seq<u8>, info: FirmwareInfo)
    requires
        data.len() >= 9,
        data[0] % 16 <= 1,
        spec_fw_entry(data, info),
    ensures
        info.kind == (if data[0] % 16 == 0 {
            FirmwareKind::Firmware
        } else {
            FirmwareKind::Bootloader
        }),
        crate::text::spec_shows_byte(info.version@, 0, data[4]),
        info.version@[2] == '.',
        crate::text::spec_shows_byte(info.version@, 3, data[5]),
        data[6] == 0 && data[7] == 0 ==> info.version@.len() == 5,
        !(data[6] == 0 && data[7] == 0) ==> info.version@.len() == 11 && info.version@[5] == '.'
            && info.version@[6] == 'B' && crate::text::spec_shows_byte(info.version@, 7, data[6]) && crate::text::spec_shows_byte(
            info.version@,
            9,
            data[7],
        ),
{
    let x = data[0];
    assert(x & 0x0F == x % 16) by (bit_vector);
}

/// A hardware entry (type 2) gives the hardware revision of byte 1 as a
/// decimal number, with no name; an entry of another type (3 or above)
/// gives an empty "other" entry.
pub proof fn lemma_fw_other_entries(data: Seq<u8>, info: FirmwareInfo)
    requires
        data.len() >= 2,
        data[0] % 16 >= 2,
        spec_fw_entry(data, info),
    ensures
        data[0] % 16 == 2 ==> info.kind == FirmwareKind::Hardware && info.name@.len() == 0
            && crate::settings::spec_parse_i64(info.version@) == Some(data[1] as i64),
        data[0] % 16 > 2 ==> info.kind == FirmwareKind::Other && info.name@.len() == 0 && info.version@.len()
            == 0,
{
    let x = data[0];
    assert(x & 0x0F == x % 16) by (bit_vector);
    crate::settings::lemma_parse_decimal(data[1] as i64);
}

/// Whether an entry reply is one that cannot be decoded: empty, or too
/// short for the kind of entry its first byte names.
pub open spec fn spec_fw_entry_bad(d: Seq<u8>) -> bool {
    d.len() == 0 || {
        let level = d[0] & 0x0F;
        ((level == 0 || level == 1) && d.len() < 9) || (level == 2 && d.len() < 2)
    }
}

/// Whether reading the firmware of a HID++ 2.0 device may fail with `e`:
/// the device refuses the count call or an entry call with `e`; or `e` is a
/// protocol error and the device answers the count call with no byte, or an
/// entry call with a reply that cannot be decoded.
pub open spec fn spec_fw20_failed<D: Hidpp20Device>(device: &D, e: Error) -> bool {
    ||| device.rejects_feature(SupportedFeature::DeviceFwVersion, 0x00, crate::bytes::bytes0(), e)
    ||| e is Protocol && device.answers_feature(
        SupportedFeature::DeviceFwVersion,
        0x00,
        crate::bytes::bytes0(),
        Some(seq![]),
    )
    ||| exists|j: u8|
        #![trigger crate::bytes::bytes1(j)]
        device.rejects_feature(SupportedFeature::DeviceFwVersion, 0x10, crate::bytes::bytes1(j), e) || (e is Protocol
            && exists|d: Seq<u8>|
            #[trigger] device.answers_feature(SupportedFeature::DeviceFwVersion, 0x10, crate::bytes::bytes1(j), Some(d))
                && spec_fw_entry_bad(d))
}

/// What reading the firmware of a HID++ 2.0 device may give: nothing when
/// the device does not answer the entry count; else at most as many
/// entries as the count says, each decoded from an entry the device gave.
pub open spec fn spec_fw20_result<D: Hidpp20Device>(device: &D, o: Option<Vec<FirmwareInfo>>) -> bool {
    match o {
        None => device.answers_feature(SupportedFeature::DeviceFwVersion, 0x00, crate::bytes::bytes0(), None),
        Some(fw) => (exists|c: Seq<u8>|
            #[trigger] device.answers_feature(
                SupportedFeature::DeviceFwVersion,
                0x00,
                crate::bytes::bytes0(),
                Some(c),
            ) && c.len() > 0 && fw@.len() <= c[0]) && forall|i: int|
            0 <= i < fw@.len() ==> spec_fw_answered(device, #[trigger] fw@[i]),
    }
}

/// Whether some firmware entry reply of `device` describes `info`.
pub open spec fn spec_fw_answered<D: Hidpp20Device>(device: &D, info: FirmwareInfo) -> bool {
    exists|j: u8, d: Seq<u8>|
        #[trigger] device.answers_feature(
            SupportedFeature::DeviceFwVersion,
            0x10,
            crate::bytes::bytes1(j),
            Some(d),
        ) && d.len() > 0 && spec_fw_entry(d, info)
}

/// The bytes of `s` from `from` up to the first zero byte.
fn until_zero(s: &[u8], from: usize) -> (r: Vec<u8>)
    requires
        from <= s.len(),
    ensures
        r@ == spec_until_zero(s@.skip(from as int)),
{
    let mut r: Vec<u8> = Vec::new();
    let mut i: usize = from;
    while i < s.len() && s[i] != 0
        invariant
            from <= i <= s.len(),
            forall|j: int| from <= j < i ==> s@[j] != 0,
            r@ == s@.subrange(from as int, i as int),
        decreases s.len() - i,
    {
        r.push(s[i]);
        i = i + 1;
        assert(r@ =~= s@.subrange(from as int, i as int));
    }
    proof {
        lemma_until_zero_prefix(s@, from as int, i as int);
    }
    r
}

/// The bytes before the first zero, read from `from`, are those up to `i`
/// when the bytes from `from` to `i` are not zero and `i` ends `s` or holds
/// a zero.
proof fn lemma_until_zero_prefix(s: Seq<u8>, from: int, i: int)
    requires
        0 <= from <= i <= s.len(),
        forall|j: int| from <= j < i ==> s[j] != 0,
        i == s.len() || s[i] == 0,
    ensures
        spec_until_zero(s.skip(from)) == s.subrange(from, i),
    decreases i - from,
{
    if from == i {
        assert(s.skip(from).len() == 0 || s.skip(from)[0] == 0);
        assert(s.subrange(from, i) =~= Seq::<u8>::empty());
    } else {
        lemma_until_zero_prefix(s, from + 1, i);
        assert(s.skip(from).skip(1) =~= s.skip(from + 1));
        assert(s.subrange(from, i) =~= seq![s[from]] + s.subrange(from + 1, i));
    }
}

/// Decode a DEVICE_FW_VERSION entry reply; `None` when it is too short.
pub fn decode_fw_entry(data: &[u8]) -> (r: Option<FirmwareInfo>)
    requires
        data@.len() > 0,
    ensures
        match r {
            Some(info) => spec_fw_entry(data@, info),
            None => {
                let level = data@[0] & 0x0F;
                (level == 0 || level == 1) && data@.len() < 9 || level == 2 && data@.len() < 2
            },
        },
{
    let level: u8 = data[0] & 0x0F;
    if level == 0 || level == 1 {
        if data.len() < 9 {
            return None;
        }
        let name_bytes = copy_range(data, 1, 4);
        let name = lossy_string(name_bytes.as_slice());
        let mut version = String::new();
        push_hex_byte(&mut version, data[4], true);
        push_char(&mut version, '.');
        push_hex_byte(&mut version, data[5], true);
        if data[6] != 0 || data[7] != 0 {
            push_char(&mut version, '.');
            push_char(&mut version, 'B');
            push_hex_byte(&mut version, data[6], true);
            push_hex_byte(&mut version, data[7], true);
        }
        assert(version@ =~= spec_fw_version(data@));
        let extras_bytes = until_zero(data, 9);
        let extras: Option<Vec<u8>> = if extras_bytes.len() == 0 {
            None
        } else {
            Some(extras_bytes)
        };
        Some(FirmwareInfo { kind: FirmwareKind::from(level), name, version, extras })
    } else if level == 2 {
        if data.len() < 2 {
            return None;
        }
        let mut version = String::new();
        push_decimal(&mut version, data[1] as u64);
        Some(
            FirmwareInfo {
                kind: FirmwareKind::Hardware,
                name: String::new(),
                version,
                extras: None,
            },
        )
    } else {
        Some(
            FirmwareInfo {
                kind: FirmwareKind::Other,
                name: String::new(),
                version: String::new(),
                extras: None,
            },
        )
    }
}

/// The one-byte parameter `b`.
fn param1(b: u8) -> (r: Vec<u8>)
    ensures
        r@ == crate::bytes::bytes1(b),
{
    let mut v: Vec<u8> = Vec::new();
    v.push(b);
    assert(v@ =~= crate::bytes::bytes1(b));
    v
}

/// No parameter.
fn param0() -> (r: Vec<u8>)
    ensures
        r@ == crate::bytes::bytes0(),
{
    let v: Vec<u8> = Vec::new();
    assert(v@ =~= crate::bytes::bytes0());
    v
}

/// Whether byte `b`, at position `k` of a name read through `feature`, comes
/// from a fragment reply: an answer to the fragment call at an offset
/// `o <= k` whose byte `skip + k - o` is `b` (`skip` bytes of each fragment
/// precede the text).
pub open spec fn spec_name_byte<D: Hidpp20Device>(
    device: &D,
    feature: SupportedFeature,
    skip: int,
    k: int,
    b: u8,
) -> bool {
    exists|o: u8, data: Seq<u8>|
        #[trigger] device.answers_feature(feature, 0x10, crate::bytes::bytes1(o), Some(data)) && o
            <= k && 0 <= skip + k - o < data.len() && data[skip + k - o] == b
}

/// Whether every byte of `name` comes from a fragment reply of `device`.
pub open spec fn spec_name_bytes<D: Hidpp20Device>(
    device: &D,
    feature: SupportedFeature,
    skip: int,
    name: Seq<u8>,
) -> bool {
    forall|k: int| 0 <= k < name.len() ==> spec_name_byte(device, feature, skip, k, #[trigger] name[k])
}

/// Whether `name` is the text a name read through `feature` assembles: the
/// length call answers a byte count `name.len()`, every byte comes from a
/// fragment reply, and the bytes are valid UTF-8 decoding to `text`.
pub open spec fn spec_name_read<D: Hidpp20Device>(
    device: &D,
    feature: SupportedFeature,
    skip: int,
    text: Seq<char>,
) -> bool {
    exists|c: Seq<u8>, name: Seq<u8>|
        #![trigger device.answers_feature(feature, 0x00, crate::bytes::bytes0(), Some(c)), spec_name_bytes(device, feature, skip, name)]
        device.answers_feature(feature, 0x00, crate::bytes::bytes0(), Some(c)) && c.len() > 0
            && name.len() == c[0] && spec_name_bytes(device, feature, skip, name)
            && vstd::utf8::valid_utf8(name) && text == vstd::utf8::decode_utf8(name)
}

/// Whether a name read through `feature` yields nothing: the length call
/// or a fragment call has no answer, a fragment holds no text byte, or the
/// assembled bytes are not valid UTF-8.
pub open spec fn spec_name_absent<D: Hidpp20Device>(
    device: &D,
    feature: SupportedFeature,
    skip: int,
) -> bool {
    ||| device.answers_feature(feature, 0x00, crate::bytes::bytes0(), None)
    ||| exists|o: u8, d: Option<Seq<u8>>|
        #[trigger] device.answers_feature(feature, 0x10, crate::bytes::bytes1(o), d) && (d is None
            || d->0.len() <= skip)
    ||| exists|c: Seq<u8>, name: Seq<u8>|
        #![trigger device.answers_feature(feature, 0x00, crate::bytes::bytes0(), Some(c)), spec_name_bytes(device, feature, skip, name)]
        device.answers_feature(feature, 0x00, crate::bytes::bytes0(), Some(c)) && c.len() > 0
            && name.len() == c[0] && spec_name_bytes(device, feature, skip, name)
            && !vstd::utf8::valid_utf8(name)
}

/// Whether a name read through `feature` may fail with `e`: the device
/// refuses the length call or a fragment call with `e`, or answers the
/// length call with no byte and `e` is a protocol error.
pub open spec fn spec_name_failed<D: Hidpp20Device>(device: &D, feature: SupportedFeature, e: Error) -> bool {
    ||| device.rejects_feature(feature, 0x00, crate::bytes::bytes0(), e)
    ||| e is Protocol && device.answers_feature(feature, 0x00, crate::bytes::bytes0(), Some(seq![]))
    ||| exists|o: u8| #[trigger] device.rejects_feature(feature, 0x10, crate::bytes::bytes1(o), e)
}

/// Read a name through `feature`: function 0x00 gives the byte count,
/// function 0x10 with the current length gives the next fragment, whose
/// first `skip` bytes are not text. A fragment without text ends the read
/// with no name.
fn read_name<D: Hidpp20Device>(device: &D, feature: SupportedFeature, skip: usize) -> (r: Result<
    Option<String>,
    Error,
>)
    requires
        skip <= 1,
    ensures
        r matches Ok(Some(s)) ==> spec_name_read(device, feature, skip as int, s@),
        r matches Ok(None) ==> spec_name_absent(device, feature, skip as int),
        r matches Err(e) ==> spec_name_failed(device, feature, e),
{
    let none = param0();
    let len_reply = device.feature_request(feature, 0x00, none.as_slice())?;
    let c = match len_reply {
        Some(r) => r,
        None => return Ok(None),
    };
    if c.len() == 0 {
        assert(c@ =~= seq![]);
        return Err(protocol_error("name length reply is empty"));
    }
    let total: usize = c[0] as usize;
    let mut name: Vec<u8> = Vec::new();
    while name.len() < total
        invariant
            name@.len() <= total,
            total == c@[0],
            skip <= 1,
            spec_name_bytes(device, feature, skip as int, name@),
        decreases total - name@.len(),
    {
        let offset: u8 = name.len() as u8;
        let p = param1(offset);
        let fragment = match device.feature_request(feature, 0x10, p.as_slice()) {
            Ok(f) => f,
            Err(e) => {
                assert(device.rejects_feature(feature, 0x10, crate::bytes::bytes1(offset), e));
                return Err(e);
            },
        };
        match fragment {
            Some(data) => {
                if data.len() <= skip {
                    assert(device.answers_feature(feature, 0x10, crate::bytes::bytes1(offset), Some(data@)));
                    return Ok(None);
                }
                let avail: usize = data.len() - skip;
                let want: usize = total - name.len();
                let take: usize = if want < avail {
                    want
                } else {
                    avail
                };
                let piece = copy_range(data.as_slice(), skip, skip + take);
                let ghost prev = name@;
                crate::bytes::append_bytes(&mut name, piece.as_slice());
                assert(device.answers_feature(feature, 0x10, crate::bytes::bytes1(offset), Some(data@)));
                assert forall|k: int| 0 <= k < name@.len() implies spec_name_byte(
                    device,
                    feature,
                    skip as int,
                    k,
                    #[trigger] name@[k],
                ) by {
                    if k < prev.len() {
                        assert(name@[k] == prev[k]);
                    } else {
                        assert(name@[k] == data@[skip + k - offset]);
                    }
                }
            },
            None => {
                assert(device.answers_feature(feature, 0x10, crate::bytes::bytes1(offset), None));
                return Ok(None);
            },
        }
    }
    assert(device.answers_feature(feature, 0x00, crate::bytes::bytes0(), Some(c@)));
    assert(spec_name_bytes(device, feature, skip as int, name@));
    match utf8_string(name) {
        Some(s) => Ok(Some(s)),
        None => Ok(None),
    }
}

/// Whether `feature` is one of the three battery features.
pub open spec fn spec_is_battery_feature(feature: SupportedFeature) -> bool {
    feature == SupportedFeature::BatteryStatus || feature == SupportedFeature::BatteryVoltage
        || feature == SupportedFeature::UnifiedBattery
}

/// The function that reads the battery through `feature`.
pub open spec fn spec_battery_function(feature: SupportedFeature) -> u8 {
    if feature == SupportedFeature::UnifiedBattery {
        0x10
    } else {
        0x00
    }
}

/// The battery a reply of `feature` describes.
pub open spec fn spec_battery_from(feature: SupportedFeature, reply: Option<Seq<u8>>) -> Option<
    Battery,
> {
    match reply {
        None => None,
        Some(r) => if feature == SupportedFeature::BatteryStatus {
            spec_decipher_battery_status(r)
        } else if feature == SupportedFeature::BatteryVoltage {
            spec_decipher_battery_voltage(r)
        } else if feature == SupportedFeature::UnifiedBattery {
            spec_decipher_battery_unified(r)
        } else {
            None
        },
    }
}

/// Each battery feature is read with its own function (UNIFIED_BATTERY
/// with function 0x10, the others with 0x00) and its reply decoded by its
/// own format: BATTERY_STATUS gives the level of byte 0, BATTERY_VOLTAGE
/// the voltage of bytes 0 and 1, UNIFIED_BATTERY the level of byte 0 and
/// the status the whole of byte 2 names; no reply gives nothing.
pub proof fn lemma_battery_feature_dispatch(feature: SupportedFeature, r: Seq<u8>)
    ensures
        spec_battery_function(SupportedFeature::UnifiedBattery) == 0x10,
        spec_battery_function(SupportedFeature::BatteryStatus) == 0x00,
        spec_battery_function(SupportedFeature::BatteryVoltage) == 0x00,
        spec_battery_from(feature, None) is None,
        feature == SupportedFeature::BatteryStatus && r.len() >= 3 ==> (spec_battery_from(feature, Some(r)) matches Some(
            b,
        ) && b.level == Some(r[0]) && b.voltage is None),
        feature == SupportedFeature::BatteryVoltage && r.len() >= 3 ==> (spec_battery_from(feature, Some(r)) matches Some(
            b,
        ) && b.voltage matches Some(v) && v as int == r[0] * 256 + r[1]),
        feature == SupportedFeature::UnifiedBattery && r.len() >= 4 ==> (spec_battery_from(feature, Some(r)) matches Some(
            b,
        ) && b.level == Some(r[0]) && (r[2] == 3 ==> b.status == Some(BatteryStatus::Full)) && (r[2] == 2
            ==> b.status == Some(BatteryStatus::AlmostFull))),
        !spec_is_battery_feature(feature) ==> spec_battery_from(feature, Some(r)) is None,
{
    lemma_battery_voltage_fields(r);
    lemma_unified_battery_fields(r);
    lemma_battery_status_fields(r);
}

/// Whether reading the battery of `device` through `feature` may give
/// `b`: a battery feature answers a reply that decodes to `b`; any other
/// feature gives nothing.
pub open spec fn spec_battery_answer<D: Hidpp20Device>(
    device: &D,
    feature: SupportedFeature,
    b: Option<Battery>,
) -> bool {
    if spec_is_battery_feature(feature) {
        exists|reply: Option<Seq<u8>>|
            #[trigger] device.answers_feature(
                feature,
                spec_battery_function(feature),
                crate::bytes::bytes0(),
                reply,
            ) && spec_battery_from(feature, reply) == b
    } else {
        b is None
    }
}

/// Whether `r` is what the battery search may give: the preferred feature
/// first, then UNIFIED_BATTERY, BATTERY_VOLTAGE and BATTERY_STATUS in that
/// order; the first that yields a battery wins.
pub open spec fn spec_battery_search<D: Hidpp20Device>(
    device: &D,
    preferred: Option<SupportedFeature>,
    r: Option<(SupportedFeature, Battery)>,
) -> bool {
    let pre_none = (preferred matches Some(p) ==> spec_battery_answer(device, p, None));
    let unified = SupportedFeature::UnifiedBattery;
    let voltage = SupportedFeature::BatteryVoltage;
    let status = SupportedFeature::BatteryStatus;
    match r {
        Some((f, b)) => spec_battery_answer(device, f, Some(b)) && (preferred == Some(f) || pre_none
            && (f == unified || f == voltage && spec_battery_answer(device, unified, None) || f
            == status && spec_battery_answer(device, unified, None) && spec_battery_answer(
            device,
            voltage,
            None,
        ))),
        None => pre_none && spec_battery_answer(device, unified, None) && spec_battery_answer(
            device,
            voltage,
            None,
        ) && spec_battery_answer(device, status, None),
    }
}

/// Whether the battery read through `f` may fail with `e`.
pub open spec fn spec_battery_rejected<D: Hidpp20Device>(device: &D, f: SupportedFeature, e: Error) -> bool {
    spec_is_battery_feature(f) && device.rejects_feature(f, spec_battery_function(f), crate::bytes::bytes0(), e)
}

/// Whether the battery search may end in error `e`: a read fails with `e`
/// after every read before it, in the search order, gave no battery.
pub open spec fn spec_battery_search_failed<D: Hidpp20Device>(
    device: &D,
    preferred: Option<SupportedFeature>,
    e: Error,
) -> bool {
    let pre_none = (preferred matches Some(p) ==> spec_battery_answer(device, p, None));
    let unified = SupportedFeature::UnifiedBattery;
    let voltage = SupportedFeature::BatteryVoltage;
    let status = SupportedFeature::BatteryStatus;
    ||| preferred matches Some(p) && spec_battery_rejected(device, p, e)
    ||| pre_none && spec_battery_rejected(device, unified, e)
    ||| pre_none && spec_battery_answer(device, unified, None) && spec_battery_rejected(device, voltage, e)
    ||| pre_none && spec_battery_answer(device, unified, None) && spec_battery_answer(device, voltage, None)
        && spec_battery_rejected(device, status, e)
}

/// The first byte of a reply that holds one.
pub open spec fn spec_first_of<D: Hidpp20Device>(
    device: &D,
    feature: SupportedFeature,
    function: u8,
    v: u8,
) -> bool {
    exists|reply: Seq<u8>|
        #[trigger] device.answers_feature(feature, function, crate::bytes::bytes0(), Some(reply))
            && reply.len() > 0 && reply[0] == v
}

/// Collection of HID++ 2.0 device operations.
pub struct Hidpp20;

impl Hidpp20 {
    /// Read the firmware information of a HID++ 2.0 device with the
    /// DEVICE_FW_VERSION feature (0x0003): the entry count, then each entry
    /// that answers. An empty count reply, or an entry reply too short for
    /// its kind, is a protocol error.
    pub fn get_firmware<D: Hidpp20Device>(&self, device: &D) -> (r: Result<
        Option<Vec<FirmwareInfo>>,
        Error,
    >)
        ensures
            r matches Ok(o) ==> spec_fw20_result(device, o),
            r matches Err(e) ==> spec_fw20_failed(device, e),
    {
        let none = param0();
        let count_reply = device.feature_request(SupportedFeature::DeviceFwVersion, 0x00, none.as_slice())?;
        let c = match count_reply {
            Some(r) => r,
            None => return Ok(None),
        };
        if c.len() == 0 {
            assert(c@ =~= seq![]);
            return Err(protocol_error("firmware count reply is empty"));
        }
        let count: u8 = c[0];
        let mut fw: Vec<FirmwareInfo> = Vec::new();
        let mut index: u8 = 0;
        while index < count
            invariant
                index <= count,
                fw@.len() <= index,
                forall|i: int| 0 <= i < fw@.len() ==> spec_fw_answered(device, #[trigger] fw@[i]),
            decreases count - index,
        {
            let p = param1(index);
            let entry = match device.feature_request(SupportedFeature::DeviceFwVersion, 0x10, p.as_slice()) {
                Ok(e) => e,
                Err(e) => {
                    assert(device.rejects_feature(SupportedFeature::DeviceFwVersion, 0x10, crate::bytes::bytes1(index), e));
                    return Err(e);
                },
            };
            if let Some(data) = entry {
                assert(device.answers_feature(
                    SupportedFeature::DeviceFwVersion,
                    0x10,
                    crate::bytes::bytes1(index),
                    Some(data@),
                ));
                if data.len() == 0 {
                    return Err(protocol_error("firmware entry reply is empty"));
                }
                match decode_fw_entry(data.as_slice()) {
                    Some(info) => {
                        assert(device.answers_feature(
                            SupportedFeature::DeviceFwVersion,
                            0x10,
                            crate::bytes::bytes1(index),
                            Some(data@),
                        ));
                        assert(spec_fw_answered(device, info));
                        fw.push(info);
                    },
                    None => return Err(protocol_error("firmware entry too short")),
                }
            }
            index = index + 1;
        }
        assert(device.answers_feature(
            SupportedFeature::DeviceFwVersion,
            0x00,
            crate::bytes::bytes0(),
            Some(c@),
        ));
        Ok(Some(fw))
    }

    /// Read the device's full name with DEVICE_NAME (0x0005).
    pub fn get_name<D: Hidpp20Device>(&self, device: &D) -> (r: Result<Option<String>, Error>)
        ensures
            r matches Ok(Some(s)) ==> spec_name_read(device, SupportedFeature::DeviceName, 0, s@),
            r matches Ok(None) ==> spec_name_absent(device, SupportedFeature::DeviceName, 0),
            r matches Err(e) ==> spec_name_failed(device, SupportedFeature::DeviceName, e),
    {
        read_name(device, SupportedFeature::DeviceName, 0)
    }

    /// Read the device's friendly name with DEVICE_FRIENDLY_NAME (0x0007);
    /// each fragment starts with a position byte.
    pub fn get_friendly_name<D: Hidpp20Device>(&self, device: &D) -> (r: Result<
        Option<String>,
        Error,
    >)
        ensures
            r matches Ok(Some(s)) ==> spec_name_read(
                device,
                SupportedFeature::DeviceFriendlyName,
                1,
                s@,
            ),
            r matches Ok(None) ==> spec_name_absent(device, SupportedFeature::DeviceFriendlyName, 1),
            r matches Err(e) ==> spec_name_failed(device, SupportedFeature::DeviceFriendlyName, e),
    {
        read_name(device, SupportedFeature::DeviceFriendlyName, 1)
    }

    /// Read the device kind with DEVICE_NAME function 0x20. An empty reply
    /// is a protocol error.
    pub fn get_kind<D: Hidpp20Device>(&self, device: &D) -> (r: Result<Option<DeviceKind>, Error>)
        ensures
            r matches Ok(None) ==> device.answers_feature(
                SupportedFeature::DeviceName,
                0x20,
                crate::bytes::bytes0(),
                None,
            ),
            r matches Ok(Some(k)) ==> exists|v: u8|
                spec_first_of(device, SupportedFeature::DeviceName, 0x20, v) && k
                    == crate::hidpp20_constants::spec_device_kind(v),
            r matches Err(e) ==> device.rejects_feature(SupportedFeature::DeviceName, 0x20, crate::bytes::bytes0(), e)
                || (e is Protocol && device.answers_feature(SupportedFeature::DeviceName, 0x20, crate::bytes::bytes0(), Some(seq![]))),
    {
        let none = param0();
        let reply = device.feature_request(SupportedFeature::DeviceName, 0x20, none.as_slice())?;
        match reply {
            None => Ok(None),
            Some(r) => {
                if r.len() == 0 {
                    assert(r@ =~= seq![]);
                    return Err(protocol_error("device kind reply is empty"));
                }
                assert(spec_first_of(device, SupportedFeature::DeviceName, 0x20, r@[0]));
                Ok(Some(DeviceKind::from(r[0])))
            },
        }
    }

    /// Try all known battery features and return the first result, with
    /// the feature that gave it: `preferred` first, then UNIFIED_BATTERY,
    /// BATTERY_VOLTAGE and BATTERY_STATUS.
    pub fn get_battery<D: Hidpp20Device>(
        &self,
        device: &D,
        preferred: Option<SupportedFeature>,
    ) -> (r: Result<Option<(SupportedFeature, Battery)>, Error>)
        ensures
            r matches Ok(found) ==> spec_battery_search(device, preferred, found),
            r matches Err(e) ==> spec_battery_search_failed(device, preferred, e),
    {
        if let Some(f) = preferred {
            if let Some(result) = self.try_battery_feature(device, f)? {
                return Ok(Some((f, result)));
            }
        }
        let unified = SupportedFeature::UnifiedBattery;
        if let Some(b) = self.try_battery_feature(device, unified)? {
            return Ok(Some((unified, b)));
        }
        let voltage = SupportedFeature::BatteryVoltage;
        if let Some(b) = self.try_battery_feature(device, voltage)? {
            return Ok(Some((voltage, b)));
        }
        let status = SupportedFeature::BatteryStatus;
        if let Some(b) = self.try_battery_feature(device, status)? {
            return Ok(Some((status, b)));
        }
        Ok(None)
    }

    /// Read the battery through one feature; nothing for a feature that is
    /// not a battery feature.
    fn try_battery_feature<D: Hidpp20Device>(&self, device: &D, feature: SupportedFeature) -> (r:
        Result<Option<Battery>, Error>)
        ensures
            r matches Ok(b) ==> spec_battery_answer(device, feature, b),
            !spec_is_battery_feature(feature) ==> r matches Ok(None),
            r matches Err(e) ==> spec_is_battery_feature(feature) && device.rejects_feature(
                feature,
                spec_battery_function(feature),
                crate::bytes::bytes0(), e),
    {
        match feature {
            SupportedFeature::BatteryStatus => self.get_battery_status(device),
            SupportedFeature::BatteryVoltage => self.get_battery_voltage(device),
            SupportedFeature::UnifiedBattery => self.get_battery_unified(device),
            _ => Ok(None),
        }
    }

    /// Read the battery with BATTERY_STATUS (0x1000).
    pub fn get_battery_status<D: Hidpp20Device>(&self, device: &D) -> (r: Result<
        Option<Battery>,
        Error,
    >)
        ensures
            r matches Ok(b) ==> spec_battery_answer(device, SupportedFeature::BatteryStatus, b),
            r matches Err(e) ==> device.rejects_feature(SupportedFeature::BatteryStatus, 0x00, crate::bytes::bytes0(), e),
    {
        let none = param0();
        let report = device.feature_request(SupportedFeature::BatteryStatus, 0x00, none.as_slice())?;
        let b = match &report {
            Some(r) => decipher_battery_status(r.as_slice()),
            None => None,
        };
        assert(device.answers_feature(
            SupportedFeature::BatteryStatus,
            spec_battery_function(SupportedFeature::BatteryStatus),
            crate::bytes::bytes0(),
            opt_view(report),
        ));
        assert(spec_battery_from(SupportedFeature::BatteryStatus, opt_view(report)) == b);
        Ok(b)
    }

    /// Read the battery with UNIFIED_BATTERY (0x1004), function 0x10.
    pub fn get_battery_unified<D: Hidpp20Device>(&self, device: &D) -> (r: Result<
        Option<Battery>,
        Error,
    >)
        ensures
            r matches Ok(b) ==> spec_battery_answer(device, SupportedFeature::UnifiedBattery, b),
            r matches Err(e) ==> device.rejects_feature(SupportedFeature::UnifiedBattery, 0x10, crate::bytes::bytes0(), e),
    {
        let none = param0();
        let report = device.feature_request(SupportedFeature::UnifiedBattery, 0x10, none.as_slice())?;
        let b = match &report {
            Some(r) => decipher_battery_unified(r.as_slice()),
            None => None,
        };
        assert(device.answers_feature(
            SupportedFeature::UnifiedBattery,
            spec_battery_function(SupportedFeature::UnifiedBattery),
            crate::bytes::bytes0(),
            opt_view(report),
        ));
        assert(spec_battery_from(SupportedFeature::UnifiedBattery, opt_view(report)) == b);
        Ok(b)
    }

    /// Read the battery with BATTERY_VOLTAGE (0x1001).
    pub fn get_battery_voltage<D: Hidpp20Device>(&self, device: &D) -> (r: Result<
        Option<Battery>,
        Error,
    >)
        ensures
            r matches Ok(b) ==> spec_battery_answer(device, SupportedFeature::BatteryVoltage, b),
            r matches Err(e) ==> device.rejects_feature(SupportedFeature::BatteryVoltage, 0x00, crate::bytes::bytes0(), e),
    {
        let none = param0();
        let report = device.feature_request(SupportedFeature::BatteryVoltage, 0x00, none.as_slice())?;
        let b = match &report {
            Some(r) => decipher_battery_voltage(r.as_slice()),
            None => None,
        };
        assert(device.answers_feature(
            SupportedFeature::BatteryVoltage,
            spec_battery_function(SupportedFeature::BatteryVoltage),
            crate::bytes::bytes0(),
            opt_view(report),
        ));
        assert(spec_battery_from(SupportedFeature::BatteryVoltage, opt_view(report)) == b);
        Ok(b)
    }

    /// Read the polling rate (ms) with REPORT_RATE (0x8060), function 0x10.
    /// An empty reply is a protocol error.
    pub fn get_polling_rate<D: Hidpp20Device>(&self, device: &D) -> (r: Result<Option<u8>, Error>)
        ensures
            r matches Ok(None) ==> device.answers_feature(
                SupportedFeature::ReportRate,
                0x10,
                crate::bytes::bytes0(),
                None,
            ),
            r matches Ok(Some(v)) ==> spec_first_of(device, SupportedFeature::ReportRate, 0x10, v),
            r matches Err(e) ==> device.rejects_feature(SupportedFeature::ReportRate, 0x10, crate::bytes::bytes0(), e)
                || (e is Protocol && device.answers_feature(SupportedFeature::ReportRate, 0x10, crate::bytes::bytes0(), Some(seq![]))),
    {
        let none = param0();
        let reply = device.feature_request(SupportedFeature::ReportRate, 0x10, none.as_slice())?;
        match reply {
            None => Ok(None),
            Some(r) => {
                if r.len() == 0 {
                    assert(r@ =~= seq![]);
                    return Err(protocol_error("report rate reply is empty"));
                }
                assert(spec_first_of(device, SupportedFeature::ReportRate, 0x10, r@[0]));
                Ok(Some(r[0]))
            },
        }
    }
}

} // verus!
