//! The animation registry: sprite sheets named `<id>_sheet.png`, measured from their PNG
//! header (the frame is square, as high as the sheet), with the frame rate and looping of
//! the known animations.
use crate::sort::{ascending_order, distinct_keys, is_ascending_order};
use crate::text::{
    chars_of, ends_with, ends_with_exec, matches_at, matches_at_exec, owned, push_str, str_eq,
    string_from_range, views,
};
use crate::types::{AnimationEntry, AnimationEntryView, AppError, AppErrorCode, LoopMode};
use vstd::prelude::*;

verus! {

/// The file-name suffix of a sprite sheet.
pub const SHEET_SUFFIX: &'static str = "_sheet.png";

/// A file found in the sprites directory: its name and its first bytes (24 of them, fewer
/// when the file is shorter or could not be read).
pub struct SheetFile {
    pub name: String,
    pub header: Vec<u8>,
}

/// The eight bytes every PNG file starts with.
pub open spec fn png_signature() -> Seq<u8> {
    seq![0x89u8, 0x50u8, 0x4eu8, 0x47u8, 0x0du8, 0x0au8, 0x1au8, 0x0au8]
}

/// The type of the first chunk, `IHDR`.
pub open spec fn ihdr_tag() -> Seq<u8> {
    seq![0x49u8, 0x48u8, 0x44u8, 0x52u8]
}

/// The big-endian number in the four bytes from `i`.
pub open spec fn be_u32(h: Seq<u8>, i: int) -> nat {
    (h[i] as nat) * 16777216 + (h[i + 1] as nat) * 65536 + (h[i + 2] as nat) * 256 + (h[i + 3] as nat)
}

/// Width and height from a PNG header: the signature, the chunk type `IHDR` at byte 12, then
/// the two big-endian numbers at bytes 16 and 20; none for anything shorter or different.
pub open spec fn header_dimensions(h: Seq<u8>) -> Option<(u32, u32)> {
    if h.len() >= 24 && h.take(8) == png_signature() && h.subrange(12, 16) == ihdr_tag() {
        Some((be_u32(h, 16) as u32, be_u32(h, 20) as u32))
    } else {
        None
    }
}

/// The big-endian number in four bytes.
fn be_u32_exec(b0: u8, b1: u8, b2: u8, b3: u8) -> (n: u32)
    ensures
        n == (b0 as nat) * 16777216 + (b1 as nat) * 65536 + (b2 as nat) * 256 + (b3 as nat),
{
    let n: u64 = (b0 as u64) * 16777216 + (b1 as u64) * 65536 + (b2 as u64) * 256 + (b3 as u64);
    n as u32
}

/// Width and height from the first bytes of a PNG file (see `header_dimensions`).
pub fn png_dimensions(h: &[u8]) -> (r: Option<(u32, u32)>)
    ensures
        r == header_dimensions(h@),
{
    if h.len() < 24 {
        return None;
    }
    let sig: [u8; 8] = [0x89, 0x50, 0x4e, 0x47, 0x0d, 0x0a, 0x1a, 0x0a];
    let mut i: usize = 0;
    while i < 8
        invariant
            h@.len() >= 24,
            i <= 8,
            sig@ == png_signature(),
            forall|k: int| 0 <= k < i ==> h@[k] == png_signature()[k],
        decreases 8 - i,
    {
        if h[i] != sig[i] {
            assert(h@.take(8)[i as int] != png_signature()[i as int]);
            return None;
        }
        i = i + 1;
    }
    assert(h@.take(8) =~= png_signature());
    if h[12] != 0x49 || h[13] != 0x48 || h[14] != 0x44 || h[15] != 0x52 {
        assert(h@.subrange(12, 16) != ihdr_tag()) by {
            if h@.subrange(12, 16) == ihdr_tag() {
                assert(h@.subrange(12, 16)[0] == h@[12]);
                assert(h@.subrange(12, 16)[1] == h@[13]);
                assert(h@.subrange(12, 16)[2] == h@[14]);
                assert(h@.subrange(12, 16)[3] == h@[15]);
            }
        }
        return None;
    }
    assert(h@.subrange(12, 16) =~= ihdr_tag());
    let w = be_u32_exec(h[16], h[17], h[18], h[19]);
    let ht = be_u32_exec(h[20], h[21], h[22], h[23]);
    Some((w, ht))
}

/// `s` with every trailing `p` removed (`str::trim_end_matches` with a non-empty pattern).
pub open spec fn trim_suffix(s: Seq<char>, p: Seq<char>) -> Seq<char>
    decreases s.len(),
{
    if p.len() > 0 && ends_with(s, p) {
        trim_suffix(s.take(s.len() - p.len()), p)
    } else {
        s
    }
}

/// `s.trim_end_matches(p)` for a non-empty `p`.
pub fn trim_suffix_exec(s: &str, p: &str) -> (r: String)
    requires
        p@.len() > 0,
    ensures
        r@ == trim_suffix(s@, p@),
{
    let sv = chars_of(s);
    let pv = chars_of(p);
    let mut end: usize = sv.len();
    assert(s@.take(end as int) =~= s@);
    while end >= pv.len() && matches_at_exec(&sv, &pv, end - pv.len())
        invariant
            sv@ == s@,
            pv@ == p@,
            pv@.len() > 0,
            end <= sv.len(),
            trim_suffix(s@.take(end as int), p@) == trim_suffix(s@, p@),
        decreases end,
    {
        let ghost t = s@.take(end as int);
        assert(t.subrange(end - pv.len(), end as int) =~= s@.subrange(end - pv.len(), end as int));
        assert(ends_with(t, p@));
        assert(t.take(end - pv.len()) =~= s@.take(end - pv.len()));
        end = end - pv.len();
    }
    let ghost t = s@.take(end as int);
    if end >= pv.len() {
        assert(t.subrange(end - pv.len(), end as int) =~= s@.subrange(end - pv.len(), end as int));
    }
    string_from_range(&sv, 0, end)
}

/// The registered animations, with frame rate and looping: `poop`, `shush` and `thumbs_up`
/// play once, the others loop; `shush` runs at 50 frames a second, `thumbs_up` and `peek`
/// at 20, the others at 25. Any other identifier is not registered.
pub open spec fn meta_of(id: Seq<char>) -> Option<(u32, LoopMode)> {
    if id == "touch_nose"@ {
        Some((25, LoopMode::Infinite))
    } else if id == "think"@ {
        Some((25, LoopMode::Infinite))
    } else if id == "poop"@ {
        Some((25, LoopMode::Once))
    } else if id == "shush"@ {
        Some((50, LoopMode::Once))
    } else if id == "thumbs_up"@ {
        Some((20, LoopMode::Once))
    } else if id == "nervous"@ {
        Some((25, LoopMode::Infinite))
    } else if id == "sleep"@ {
        Some((25, LoopMode::Infinite))
    } else if id == "peek"@ {
        Some((20, LoopMode::Infinite))
    } else if id == "knead"@ {
        Some((25, LoopMode::Infinite))
    } else if id == "heartbeat"@ {
        Some((25, LoopMode::Infinite))
    } else if id == "cloud"@ {
        Some((25, LoopMode::Infinite))
    } else {
        None
    }
}

/// The registration of an animation (see `meta_of`).
pub fn known_meta(id: &str) -> (m: Option<(u32, LoopMode)>)
    ensures
        m == meta_of(id@),
{
    proof {
        reveal_strlit("touch_nose");
        reveal_strlit("think");
        reveal_strlit("poop");
        reveal_strlit("shush");
        reveal_strlit("thumbs_up");
        reveal_strlit("nervous");
        reveal_strlit("sleep");
        reveal_strlit("peek");
        reveal_strlit("knead");
        reveal_strlit("heartbeat");
        reveal_strlit("cloud");
    }
    if str_eq(id, "touch_nose") {
        Some((25, LoopMode::Infinite))
    } else if str_eq(id, "think") {
        Some((25, LoopMode::Infinite))
    } else if str_eq(id, "poop") {
        Some((25, LoopMode::Once))
    } else if str_eq(id, "shush") {
        Some((50, LoopMode::Once))
    } else if str_eq(id, "thumbs_up") {
        Some((20, LoopMode::Once))
    } else if str_eq(id, "nervous") {
        Some((25, LoopMode::Infinite))
    } else if str_eq(id, "sleep") {
        Some((25, LoopMode::Infinite))
    } else if str_eq(id, "peek") {
        Some((20, LoopMode::Infinite))
    } else if str_eq(id, "knead") {
        Some((25, LoopMode::Infinite))
    } else if str_eq(id, "heartbeat") {
        Some((25, LoopMode::Infinite))
    } else if str_eq(id, "cloud") {
        Some((25, LoopMode::Infinite))
    } else {
        None
    }
}

/// The animation a file gives: a name ending in `_sheet.png`, a PNG header with non-zero
/// width and height, and a registered identifier (the name without the suffix). Frames are
/// as wide and high as the sheet is high, and there are `width / height` of them.
pub open spec fn sheet_entry(f: SheetFile) -> Option<AnimationEntryView> {
    if ends_with(f.name@, SHEET_SUFFIX@) {
        match header_dimensions(f.header@) {
            Some((w, h)) => if w == 0 || h == 0 {
                None
            } else {
                let id = trim_suffix(f.name@, SHEET_SUFFIX@);
                match meta_of(id) {
                    Some((fps, loop_mode)) => Some(
                        AnimationEntryView {
                            id,
                            sheet_path: "/sprites/"@ + id + SHEET_SUFFIX@,
                            frame_count: w / h,
                            frame_width: h,
                            frame_height: h,
                            fps,
                            loop_mode,
                        },
                    ),
                    None => None,
                }
            },
            None => None,
        }
    } else {
        None
    }
}

/// The animations the files give, in the order of the files.
pub open spec fn sheet_entries(files: Seq<SheetFile>) -> Seq<AnimationEntryView>
    decreases files.len(),
{
    if files.len() == 0 {
        Seq::empty()
    } else {
        let rest = sheet_entries(files.drop_last());
        match sheet_entry(files.last()) {
            Some(e) => rest.push(e),
            None => rest,
        }
    }
}

/// The identifiers of animations.
pub open spec fn entry_ids(s: Seq<AnimationEntryView>) -> Seq<Seq<char>> {
    s.map_values(|e: AnimationEntryView| e.id)
}

/// The first identifier, in the order of the files, that an earlier file already gave.
pub open spec fn first_duplicate(files: Seq<SheetFile>) -> Option<Seq<char>>
    decreases files.len(),
{
    if files.len() == 0 {
        None
    } else {
        match first_duplicate(files.drop_last()) {
            Some(x) => Some(x),
            None => match sheet_entry(files.last()) {
                Some(e) => if entry_ids(sheet_entries(files.drop_last())).contains(e.id) {
                    Some(e.id)
                } else {
                    None
                },
                None => None,
            },
        }
    }
}

/// The views of animations.
pub open spec fn entry_views(s: Seq<AnimationEntry>) -> Seq<AnimationEntryView> {
    s.map_values(|e: AnimationEntry| e@)
}

/// The identifiers of the animations.
pub open spec fn animation_ids(s: Seq<AnimationEntry>) -> Seq<Seq<char>> {
    s.map_values(|e: AnimationEntry| e.id@)
}

/// The registry listed from these files: an error naming the first repeated identifier, or
/// the animations in ascending order of identifier.
pub open spec fn listed_from(files: Seq<SheetFile>, r: Result<Vec<AnimationEntry>, AppError>) -> bool {
    let c = sheet_entries(files);
    match first_duplicate(files) {
        Some(id) => r matches Err(e) && e.code == AppErrorCode::EInternal && e.message@ == "duplicate animation id: "@
            + id,
        None => r matches Ok(v) && exists|p: Seq<usize>|
            #[trigger] is_ascending_order(entry_ids(c), p) && entry_views(v@) == p.map_values(|j: usize| c[j as int]),
    }
}

/// Every animation the files give is registered, and carries its registration.
proof fn lemma_sheet_entries_registered(files: Seq<SheetFile>)
    ensures
        forall|j: int|
            0 <= j < sheet_entries(files).len() ==> meta_of(#[trigger] sheet_entries(files)[j].id)
                == Some((sheet_entries(files)[j].fps, sheet_entries(files)[j].loop_mode)),
    decreases files.len(),
{
    if files.len() > 0 {
        lemma_sheet_entries_registered(files.drop_last());
    }
}

/// A listing holds only registered animations, each with the frame rate and looping of its
/// registration: a sheet without a registration is left out.
pub proof fn law_listing_registered(files: Seq<SheetFile>, v: Vec<AnimationEntry>)
    requires
        listed_from(files, Ok(v)),
    ensures
        forall|j: int|
            0 <= j < v@.len() ==> meta_of((#[trigger] v@[j]).id@) == Some((v@[j].fps, v@[j].loop_mode)),
{
    let c = sheet_entries(files);
    lemma_sheet_entries_registered(files);
    assert(first_duplicate(files) is None);
    assert(exists|p: Seq<usize>|
        #[trigger] is_ascending_order(entry_ids(c), p) && entry_views(v@) == p.map_values(|j: usize| c[j as int]));
    let p = choose|p: Seq<usize>|
        #[trigger] is_ascending_order(entry_ids(c), p) && entry_views(v@) == p.map_values(|j: usize| c[j as int]);
    assert(p.len() == c.len());
    assert forall|j: int| 0 <= j < v@.len() implies meta_of((#[trigger] v@[j]).id@) == Some(
        (v@[j].fps, v@[j].loop_mode),
    ) by {
        let k = p[j] as int;
        assert(0 <= k < c.len());
        assert(entry_views(v@)[j] == c[k]);
        assert(entry_views(v@)[j] == v@[j]@);
        assert(meta_of(c[k].id) == Some((c[k].fps, c[k].loop_mode)));
    }
}

/// A listing holds each identifier once, in strictly ascending order.
pub proof fn law_listing_ordered(files: Seq<SheetFile>, v: Vec<AnimationEntry>)
    requires
        listed_from(files, Ok(v)),
    ensures
        forall|j: int, k: int| 0 <= j < k < v@.len() ==> crate::sort::lex_less(v@[j].id@, v@[k].id@),
{
    let c = sheet_entries(files);
    assert(first_duplicate(files) is None);
    assert(exists|p: Seq<usize>|
        #[trigger] is_ascending_order(entry_ids(c), p) && entry_views(v@) == p.map_values(|j: usize| c[j as int]));
    let p = choose|p: Seq<usize>|
        #[trigger] is_ascending_order(entry_ids(c), p) && entry_views(v@) == p.map_values(|j: usize| c[j as int]);
    assert(p.len() == c.len());
    assert forall|j: int, k: int| 0 <= j < k < v@.len() implies crate::sort::lex_less(v@[j].id@, v@[k].id@) by {
        assert(entry_views(v@)[j] == c[p[j] as int]);
        assert(entry_views(v@)[k] == c[p[k] as int]);
        assert(entry_ids(c)[p[j] as int] == c[p[j] as int].id);
        assert(entry_ids(c)[p[k] as int] == c[p[k] as int].id);
    }
}

/// The first 24 bytes of a PNG file of this size: the signature, the `IHDR` chunk's length
/// and type, then width and height, big-endian.
pub open spec fn png_header(w: u32, h: u32) -> Seq<u8> {
    png_signature() + seq![0u8, 0u8, 0u8, 13u8] + ihdr_tag() + seq![
        (w >> 24u32) as u8,
        ((w >> 16u32) & 0xffu32) as u8,
        ((w >> 8u32) & 0xffu32) as u8,
        (w & 0xffu32) as u8,
        (h >> 24u32) as u8,
        ((h >> 16u32) & 0xffu32) as u8,
        ((h >> 8u32) & 0xffu32) as u8,
        (h & 0xffu32) as u8,
    ]
}

/// The four bytes of a number, big-endian, give the number back.
proof fn lemma_be_bytes(w: u32)
    ensures
        ((w >> 24u32) as u8) as nat * 16777216 + (((w >> 16u32) & 0xffu32) as u8) as nat * 65536 + (((w >> 8u32)
            & 0xffu32) as u8) as nat * 256 + ((w & 0xffu32) as u8) as nat == w,
{
    assert(((w >> 24u32) as u8) as u32 == w >> 24u32) by (bit_vector);
    assert((((w >> 16u32) & 0xffu32) as u8) as u32 == (w >> 16u32) & 0xffu32) by (bit_vector);
    assert((((w >> 8u32) & 0xffu32) as u8) as u32 == (w >> 8u32) & 0xffu32) by (bit_vector);
    assert(((w & 0xffu32) as u8) as u32 == w & 0xffu32) by (bit_vector);
    assert((w >> 24u32) * 16777216 + ((w >> 16u32) & 0xffu32) * 65536 + ((w >> 8u32) & 0xffu32) * 256 + (w
        & 0xffu32) == w) by (bit_vector);
}

/// The size read from a PNG header is the size written into it.
pub proof fn law_png_roundtrip(w: u32, h: u32)
    ensures
        header_dimensions(png_header(w, h)) == Some((w, h)),
{
    let b = png_header(w, h);
    assert(b.take(8) =~= png_signature());
    assert(b.subrange(12, 16) =~= ihdr_tag());
    lemma_be_bytes(w);
    lemma_be_bytes(h);
    assert(be_u32(b, 16) == w);
    assert(be_u32(b, 20) == h);
}

/// A repeated identifier in a prefix of the files is the first one of all the files.
proof fn lemma_duplicate_prefix(files: Seq<SheetFile>, n: int)
    requires
        0 <= n <= files.len(),
        first_duplicate(files.take(n)) is Some,
    ensures
        first_duplicate(files) == first_duplicate(files.take(n)),
    decreases files.len(),
{
    if n < files.len() {
        assert(files.drop_last().take(n) =~= files.take(n));
        lemma_duplicate_prefix(files.drop_last(), n);
    } else {
        assert(files.take(n) =~= files);
    }
}

/// Without a repeated identifier the identifiers are all different.
proof fn lemma_no_duplicate(files: Seq<SheetFile>)
    requires
        first_duplicate(files) is None,
    ensures
        distinct_keys(entry_ids(sheet_entries(files))),
    decreases files.len(),
{
    if files.len() > 0 {
        lemma_no_duplicate(files.drop_last());
        let rest = sheet_entries(files.drop_last());
        match sheet_entry(files.last()) {
            Some(e) => {
                let ids = entry_ids(rest.push(e));
                assert(ids =~= entry_ids(rest).push(e.id));
                assert forall|j: int, k: int| 0 <= j < k < ids.len() implies ids[j] != ids[k] by {
                    if k == ids.len() - 1 {
                        assert(entry_ids(rest)[j] == ids[j]);
                        if ids[j] == ids[k] {
                            assert(entry_ids(rest).contains(e.id));
                        }
                    }
                }
            },
            None => {},
        }
    }
}

/// An exact copy of an animation.
fn copy_entry(e: &AnimationEntry) -> (r: AnimationEntry)
    ensures
        r@ == e@,
{
    AnimationEntry {
        id: e.id.clone(),
        sheet_path: e.sheet_path.clone(),
        frame_count: e.frame_count,
        frame_width: e.frame_width,
        frame_height: e.frame_height,
        fps: e.fps,
        loop_mode: e.loop_mode,
    }
}

/// The animation a file gives (see `sheet_entry`).
pub fn sheet_entry_exec(f: &SheetFile) -> (r: Option<AnimationEntry>)
    ensures
        match sheet_entry(*f) {
            Some(v) => (r matches Some(e) && e@ == v),
            None => r is None,
        },
{
    proof {
        reveal_strlit("_sheet.png");
    }
    if !ends_with_exec(f.name.as_str(), SHEET_SUFFIX) {
        return None;
    }
    match png_dimensions(f.header.as_slice()) {
        None => None,
        Some((w, h)) => {
            if w == 0 || h == 0 {
                return None;
            }
            let id = trim_suffix_exec(f.name.as_str(), SHEET_SUFFIX);
            let (fps, loop_mode) = match known_meta(id.as_str()) {
                Some(m) => m,
                None => {
                    return None;
                },
            };
            let mut path = owned("/sprites/");
            push_str(&mut path, id.as_str());
            push_str(&mut path, SHEET_SUFFIX);
            Some(
                AnimationEntry {
                    id,
                    sheet_path: path,
                    frame_count: w / h,
                    frame_width: h,
                    frame_height: h,
                    fps,
                    loop_mode,
                },
            )
        },
    }
}

/// Whether an animation with this identifier is listed.
pub fn is_known_animation(entries: &[AnimationEntry], id: &str) -> (b: bool)
    ensures
        b == animation_ids(entries@).contains(id@),
{
    let mut i: usize = 0;
    while i < entries.len()
        invariant
            i <= entries@.len(),
            forall|j: int| 0 <= j < i ==> entries@[j].id@ != id@,
        decreases entries.len() - i,
    {
        if str_eq(entries[i].id.as_str(), id) {
            assert(animation_ids(entries@)[i as int] == id@);
            return true;
        }
        i = i + 1;
    }
    proof {
        if animation_ids(entries@).contains(id@) {
            let j = choose|j: int| 0 <= j < animation_ids(entries@).len() && animation_ids(entries@)[j] == id@;
            assert(entries@[j].id@ == id@);
        }
    }
    false
}

/// Lists the animations of the sprites directory's files (see `listed_from`): files that
/// are not sheets, whose header is not a PNG one with a non-zero size, or whose identifier
/// is not registered are skipped.
pub fn list_animations(files: &[SheetFile]) -> (r: Result<Vec<AnimationEntry>, AppError>)
    ensures
        listed_from(files@, r),
{
    let mut cands: Vec<AnimationEntry> = Vec::new();
    let mut i: usize = 0;
    assert(files@.take(0) =~= Seq::<SheetFile>::empty());
    while i < files.len()
        invariant
            i <= files@.len(),
            entry_views(cands@) == sheet_entries(files@.take(i as int)),
            first_duplicate(files@.take(i as int)) is None,
        decreases files.len() - i,
    {
        let ghost pre = files@.take(i as int);
        assert(files@.take(i + 1).drop_last() =~= pre);
        assert(files@.take(i + 1).last() == files@[i as int]);
        match sheet_entry_exec(&files[i]) {
            Some(e) => {
                assert(entry_ids(entry_views(cands@)) =~= animation_ids(cands@));
                if is_known_animation(cands.as_slice(), e.id.as_str()) {
                    proof {
                        lemma_duplicate_prefix(files@, i + 1);
                    }
                    let mut m = owned("duplicate animation id: ");
                    push_str(&mut m, e.id.as_str());
                    return Err(AppError::internal(m));
                }
                let ghost before = cands@;
                cands.push(e);
                assert(entry_views(cands@) =~= entry_views(before).push(e@));
            },
            None => {},
        }
        i = i + 1;
    }
    assert(files@.take(files@.len() as int) =~= files@);
    let ghost c = sheet_entries(files@);
    proof {
        lemma_no_duplicate(files@);
    }
    let mut ids: Vec<String> = Vec::new();
    let mut k: usize = 0;
    while k < cands.len()
        invariant
            k <= cands@.len(),
            entry_views(cands@) == c,
            views(ids@) == entry_ids(c).take(k as int),
        decreases cands.len() - k,
    {
        let ghost before = ids@;
        ids.push(cands[k].id.clone());
        assert(views(ids@) =~= views(before).push(cands@[k as int].id@));
        assert(entry_ids(c).take(k + 1) =~= entry_ids(c).take(k as int).push(c[k as int].id));
        k = k + 1;
    }
    assert(entry_ids(c).take(cands@.len() as int) =~= entry_ids(c));
    let p = ascending_order(&ids);
    let mut out: Vec<AnimationEntry> = Vec::new();
    let mut j: usize = 0;
    while j < p.len()
        invariant
            j <= p@.len(),
            entry_views(cands@) == c,
            is_ascending_order(entry_ids(c), p@),
            entry_views(out@) == p@.take(j as int).map_values(|q: usize| c[q as int]),
        decreases p.len() - j,
    {
        let ghost before = out@;
        out.push(copy_entry(&cands[p[j]]));
        assert(entry_views(out@) =~= entry_views(before).push(c[p@[j as int] as int]));
        assert(p@.take(j + 1) =~= p@.take(j as int).push(p@[j as int]));
        assert(p@.take(j + 1).map_values(|q: usize| c[q as int]) =~= p@.take(j as int).map_values(
            |q: usize| c[q as int],
        ).push(c[p@[j as int] as int]));
        j = j + 1;
    }
    assert(p@.take(p@.len() as int) =~= p@);
    Ok(out)
}

} // verus!
