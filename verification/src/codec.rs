//! The wire codec: pure transforms from raw sensor measurement buffers to
//! ready-to-publish messages.
//!
//! Every 32-bit measurement value (float or unsigned) is carried as a `u32`
//! word; a message's byte buffer lays words out four bytes each, in the byte
//! order named by its `big_endian` argument, which callers obtain from
//! [`is_bigendian`] so the encoded flag reflects the machine's real byte
//! order.  Empty measurement buffers produce no message.

use vstd::prelude::*;
use vstd::bytes::{
    lemma_auto_spec_u32_to_from_le_bytes, spec_u32_from_le_bytes, spec_u32_to_le_bytes,
    u32_from_le_bytes, u32_to_le_bytes,
};

use crate::msg::{Header, ImageMsg, ImuMsg, PointCloudMsg, PointFieldMsg, QuatBits, TimeMsg, Vec3Bits};
use crate::types::PointFieldType;
use crate::utils::{identity_matrix, spec_identity_matrix};

verus! {

/// Relies on `u16::to_ne_bytes`: it returns the value's bytes in the
/// machine's native order, so for the value 1 the first byte is 1 on a
/// little-endian machine and 0 on a big-endian one.
#[verifier::external_body]
fn first_native_byte_of_one() -> (r: u8)
    ensures
        r == 0 || r == 1,
{
    u16::to_ne_bytes(1)[0]
}

/// Whether this machine stores integers big-endian.  The answer depends on
/// the machine alone, so no more can be promised of it.
pub fn is_bigendian() -> bool {
    first_native_byte_of_one() == 0
}

/// The four bytes of one word in the chosen byte order.
pub open spec fn spec_word_bytes(w: u32, big_endian: bool) -> Seq<u8> {
    let le = spec_u32_to_le_bytes(w);
    if big_endian {
        seq![le[3], le[2], le[1], le[0]]
    } else {
        le
    }
}

/// The word read back from four bytes in the chosen byte order.
pub open spec fn spec_word_of_bytes(b: Seq<u8>, big_endian: bool) -> u32 {
    if big_endian {
        spec_u32_from_le_bytes(seq![b[3], b[2], b[1], b[0]])
    } else {
        spec_u32_from_le_bytes(b)
    }
}

/// A word's four bytes read back in the same order give the word again.
pub proof fn lemma_word_round_trip(w: u32, big_endian: bool)
    ensures
        spec_word_bytes(w, big_endian).len() == 4,
        spec_word_of_bytes(spec_word_bytes(w, big_endian), big_endian) == w,
{
    lemma_auto_spec_u32_to_from_le_bytes();
    let le = spec_u32_to_le_bytes(w);
    assert(le.len() == 4);
    assert(spec_u32_from_le_bytes(le) == w);
    if big_endian {
        let be = spec_word_bytes(w, true);
        assert(seq![be[3], be[2], be[1], be[0]] =~= le);
        assert(spec_word_of_bytes(be, true) == spec_u32_from_le_bytes(le));
    }
}

/// The byte stream of a word sequence: four bytes per word, in order.
pub open spec fn spec_encode_words(ws: Seq<u32>, big_endian: bool) -> Seq<u8>
    decreases ws.len(),
{
    if ws.len() == 0 {
        Seq::empty()
    } else {
        spec_word_bytes(ws[0], big_endian) + spec_encode_words(ws.drop_first(), big_endian)
    }
}

pub proof fn lemma_encode_words_len(ws: Seq<u32>, big_endian: bool)
    ensures
        spec_encode_words(ws, big_endian).len() == 4 * ws.len(),
    decreases ws.len(),
{
    if ws.len() == 0 {
    } else {
        lemma_word_round_trip(ws[0], big_endian);
        lemma_encode_words_len(ws.drop_first(), big_endian);
    }
}

/// Appending a word appends its four bytes.
pub proof fn lemma_encode_words_push(ws: Seq<u32>, w: u32, big_endian: bool)
    ensures
        spec_encode_words(ws.push(w), big_endian) =~= spec_encode_words(ws, big_endian)
            + spec_word_bytes(w, big_endian),
    decreases ws.len(),
{
    if ws.len() == 0 {
        assert(ws.push(w)[0] == w);
        assert(ws.push(w).drop_first() =~= Seq::<u32>::empty());
        assert(spec_encode_words(Seq::<u32>::empty(), big_endian) == Seq::<u8>::empty());
        assert(spec_encode_words(ws, big_endian) == Seq::<u8>::empty());
    } else {
        assert(ws.push(w)[0] == ws[0]);
        assert(ws.push(w).drop_first() =~= ws.drop_first().push(w));
        lemma_encode_words_push(ws.drop_first(), w, big_endian);
        assert(spec_encode_words(ws.push(w), big_endian) == spec_word_bytes(ws[0], big_endian)
            + spec_encode_words(ws.drop_first().push(w), big_endian));
    }
}

/// Word `k`'s bytes sit at offsets `4k .. 4k + 4` of the stream.
pub proof fn lemma_encode_words_index(ws: Seq<u32>, big_endian: bool, k: int)
    requires
        0 <= k < ws.len(),
    ensures
        spec_encode_words(ws, big_endian).subrange(4 * k, 4 * k + 4) =~= spec_word_bytes(
            ws[k],
            big_endian,
        ),
    decreases k,
{
    lemma_encode_words_len(ws, big_endian);
    lemma_word_round_trip(ws[0], big_endian);
    if k == 0 {
        assert(spec_encode_words(ws, big_endian).subrange(0, 4) =~= spec_word_bytes(
            ws[0],
            big_endian,
        ));
    } else {
        lemma_encode_words_index(ws.drop_first(), big_endian, k - 1);
        lemma_encode_words_len(ws.drop_first(), big_endian);
        assert(spec_encode_words(ws, big_endian).subrange(4 * k, 4 * k + 4)
            =~= spec_encode_words(ws.drop_first(), big_endian).subrange(
            4 * (k - 1),
            4 * (k - 1) + 4,
        ));
    }
}

/// The words read back from a byte stream, four bytes each.
pub open spec fn spec_decode_words(bytes: Seq<u8>, big_endian: bool) -> Seq<u32> {
    Seq::new(
        bytes.len() / 4,
        |k: int| spec_word_of_bytes(bytes.subrange(4 * k, 4 * k + 4), big_endian),
    )
}

/// Law: decoding an encoded word sequence gives back the words exactly.
pub proof fn lemma_words_round_trip(ws: Seq<u32>, big_endian: bool)
    ensures
        spec_decode_words(spec_encode_words(ws, big_endian), big_endian) =~= ws,
{
    lemma_encode_words_len(ws, big_endian);
    let decoded = spec_decode_words(spec_encode_words(ws, big_endian), big_endian);
    assert forall|k: int| 0 <= k < ws.len() implies decoded[k] == ws[k] by {
        lemma_encode_words_index(ws, big_endian, k);
        lemma_word_round_trip(ws[k], big_endian);
    }
}

/// Appends one word's four bytes in the chosen byte order.
fn push_word(data: &mut Vec<u8>, w: u32, big_endian: bool)
    ensures
        final(data)@ == old(data)@ + spec_word_bytes(w, big_endian),
{
    let bytes = u32_to_le_bytes(w);
    if big_endian {
        data.push(bytes[3]);
        data.push(bytes[2]);
        data.push(bytes[1]);
        data.push(bytes[0]);
    } else {
        data.push(bytes[0]);
        data.push(bytes[1]);
        data.push(bytes[2]);
        data.push(bytes[3]);
    }
    proof {
        assert(data@ =~= old(data)@ + spec_word_bytes(w, big_endian));
    }
}

/// Encodes a word sequence into its byte stream.
pub fn encode_words(ws: &Vec<u32>, big_endian: bool) -> (data: Vec<u8>)
    ensures
        data@ == spec_encode_words(ws@, big_endian),
{
    let mut data: Vec<u8> = Vec::new();
    let mut i: usize = 0;
    while i < ws.len()
        invariant
            i <= ws@.len(),
            data@ == spec_encode_words(ws@.take(i as int), big_endian),
        decreases ws@.len() - i,
    {
        proof {
            lemma_encode_words_push(ws@.take(i as int), ws@[i as int], big_endian);
            assert(ws@.take(i + 1 as int) =~= ws@.take(i as int).push(ws@[i as int]));
        }
        push_word(&mut data, ws[i], big_endian);
        i = i + 1;
    }
    proof {
        assert(ws@.take(ws@.len() as int) =~= ws@);
    }
    data
}

/// Decodes a byte stream back into its words.
pub fn decode_words(bytes: &Vec<u8>, big_endian: bool) -> (ws: Vec<u32>)
    requires
        bytes@.len() % 4 == 0,
    ensures
        ws@ == spec_decode_words(bytes@, big_endian),
{
    let n = bytes.len() / 4;
    proof {
        assert(bytes@.len() <= usize::MAX);
    }
    let mut ws: Vec<u32> = Vec::new();
    let mut i: usize = 0;
    while i < n
        invariant
            n == bytes@.len() / 4,
            bytes@.len() % 4 == 0,
            bytes@.len() <= usize::MAX,
            i <= n,
            ws@.len() == i,
            forall|k: int| 0 <= k < i ==> ws@[k] == spec_decode_words(bytes@, big_endian)[k],
        decreases n - i,
    {
        proof {
            assert(bytes@.len() == 4 * n) by {
                vstd::arithmetic::div_mod::lemma_fundamental_div_mod(bytes@.len() as int, 4);
            };
            assert(4 * i + 3 < bytes@.len()) by (nonlinear_arith)
                requires
                    i < n,
                    bytes@.len() == 4 * n,
            ;
        }
        let b0 = bytes[4 * i];
        let b1 = bytes[4 * i + 1];
        let b2 = bytes[4 * i + 2];
        let b3 = bytes[4 * i + 3];
        let mut le: Vec<u8> = Vec::new();
        if big_endian {
            le.push(b3);
            le.push(b2);
            le.push(b1);
            le.push(b0);
        } else {
            le.push(b0);
            le.push(b1);
            le.push(b2);
            le.push(b3);
        }
        let w = u32_from_le_bytes(le.as_slice());
        proof {
            let chunk = bytes@.subrange(4 * i as int, 4 * i as int + 4);
            assert(chunk =~= seq![b0, b1, b2, b3]);
            if big_endian {
                assert(le@ =~= seq![chunk[3], chunk[2], chunk[1], chunk[0]]);
            } else {
                assert(le@ =~= chunk);
            }
        }
        ws.push(w);
        i = i + 1;
    }
    proof {
        assert(ws@ =~= spec_decode_words(bytes@, big_endian));
    }
    ws
}

/// One lidar detection: position and intensity, as 32-bit float bit patterns.
#[derive(Debug, Clone, Copy, PartialEq, Eq, Structural)]
pub struct LidarPoint {
    pub x: u32,
    pub y: u32,
    pub z: u32,
    pub intensity: u32,
}

/// The word stream of a lidar buffer: `x, y, z, intensity` per detection.
pub open spec fn spec_lidar_words(pts: Seq<LidarPoint>) -> Seq<u32>
    decreases pts.len(),
{
    if pts.len() == 0 {
        Seq::empty()
    } else {
        seq![pts[0].x, pts[0].y, pts[0].z, pts[0].intensity] + spec_lidar_words(pts.drop_first())
    }
}

pub proof fn lemma_lidar_words_len(pts: Seq<LidarPoint>)
    ensures
        spec_lidar_words(pts).len() == 4 * pts.len(),
    decreases pts.len(),
{
    if pts.len() > 0 {
        lemma_lidar_words_len(pts.drop_first());
    }
}

proof fn lemma_lidar_words_push(pts: Seq<LidarPoint>, p: LidarPoint)
    ensures
        spec_lidar_words(pts.push(p)) =~= spec_lidar_words(pts) + seq![p.x, p.y, p.z, p.intensity],
    decreases pts.len(),
{
    if pts.len() == 0 {
        assert(pts.push(p)[0] == p);
        assert(pts.push(p).drop_first() =~= Seq::<LidarPoint>::empty());
        assert(spec_lidar_words(Seq::<LidarPoint>::empty()) == Seq::<u32>::empty());
        assert(spec_lidar_words(pts) == Seq::<u32>::empty());
    } else {
        assert(pts.push(p)[0] == pts[0]);
        assert(pts.push(p).drop_first() =~= pts.drop_first().push(p));
        lemma_lidar_words_push(pts.drop_first(), p);
        assert(spec_lidar_words(pts.push(p)) == seq![pts[0].x, pts[0].y, pts[0].z, pts[0].intensity]
            + spec_lidar_words(pts.drop_first().push(p)));
    }
}

/// Detection `k`'s words sit at offsets `4k .. 4k + 4` of the word stream.
proof fn lemma_lidar_words_index(pts: Seq<LidarPoint>, k: int)
    requires
        0 <= k < pts.len(),
    ensures
        spec_lidar_words(pts).subrange(4 * k, 4 * k + 4) =~= seq![
            pts[k].x,
            pts[k].y,
            pts[k].z,
            pts[k].intensity,
        ],
    decreases k,
{
    lemma_lidar_words_len(pts);
    if k == 0 {
    } else {
        lemma_lidar_words_index(pts.drop_first(), k - 1);
        lemma_lidar_words_len(pts.drop_first());
        assert(spec_lidar_words(pts).subrange(4 * k, 4 * k + 4) =~= spec_lidar_words(
            pts.drop_first(),
        ).subrange(4 * (k - 1), 4 * (k - 1) + 4));
    }
}

/// The detections read back from a word stream, four words each.
pub open spec fn spec_group_lidar(ws: Seq<u32>) -> Seq<LidarPoint> {
    Seq::new(
        ws.len() / 4,
        |k: int| LidarPoint { x: ws[4 * k], y: ws[4 * k + 1], z: ws[4 * k + 2], intensity: ws[4 * k + 3] },
    )
}

/// Law: regrouping a lidar buffer's word stream gives back the detections.
pub proof fn lemma_lidar_group_round_trip(pts: Seq<LidarPoint>)
    ensures
        spec_group_lidar(spec_lidar_words(pts)) =~= pts,
{
    lemma_lidar_words_len(pts);
    let grouped = spec_group_lidar(spec_lidar_words(pts));
    assert forall|k: int| 0 <= k < pts.len() implies grouped[k] == pts[k] by {
        lemma_lidar_words_index(pts, k);
        let chunk = spec_lidar_words(pts).subrange(4 * k, 4 * k + 4);
        assert(spec_lidar_words(pts)[4 * k] == chunk[0]);
        assert(spec_lidar_words(pts)[4 * k + 1] == chunk[1]);
        assert(spec_lidar_words(pts)[4 * k + 2] == chunk[2]);
        assert(spec_lidar_words(pts)[4 * k + 3] == chunk[3]);
    }
}

/// Law: a lidar byte buffer decodes back to the detections it was encoded
/// from, exactly.
pub proof fn lemma_lidar_round_trip(pts: Seq<LidarPoint>, big_endian: bool)
    ensures
        spec_group_lidar(
            spec_decode_words(spec_encode_words(spec_lidar_words(pts), big_endian), big_endian),
        ) =~= pts,
{
    lemma_words_round_trip(spec_lidar_words(pts), big_endian);
    lemma_lidar_group_round_trip(pts);
}

/// Flattens a lidar buffer into its word stream.
pub fn lidar_words(points: &Vec<LidarPoint>) -> (ws: Vec<u32>)
    ensures
        ws@ == spec_lidar_words(points@),
{
    let mut ws: Vec<u32> = Vec::new();
    let mut i: usize = 0;
    while i < points.len()
        invariant
            i <= points@.len(),
            ws@ == spec_lidar_words(points@.take(i as int)),
        decreases points@.len() - i,
    {
        let p = points[i];
        proof {
            lemma_lidar_words_push(points@.take(i as int), points@[i as int]);
            assert(points@.take(i + 1 as int) =~= points@.take(i as int).push(points@[i as int]));
        }
        ws.push(p.x);
        ws.push(p.y);
        ws.push(p.z);
        ws.push(p.intensity);
        proof {
            assert(ws@ =~= spec_lidar_words(points@.take(i as int)) + seq![
                points@[i as int].x,
                points@[i as int].y,
                points@[i as int].z,
                points@[i as int].intensity,
            ]);
        }
        i = i + 1;
    }
    proof {
        assert(points@.take(points@.len() as int) =~= points@);
    }
    ws
}

/// Groups a decoded word stream back into detections.
pub fn group_lidar(ws: &Vec<u32>) -> (pts: Vec<LidarPoint>)
    requires
        ws@.len() % 4 == 0,
    ensures
        pts@ == spec_group_lidar(ws@),
{
    let n = ws.len() / 4;
    proof {
        assert(ws@.len() <= usize::MAX);
    }
    let mut pts: Vec<LidarPoint> = Vec::new();
    let mut i: usize = 0;
    while i < n
        invariant
            n == ws@.len() / 4,
            ws@.len() % 4 == 0,
            ws@.len() <= usize::MAX,
            i <= n,
            pts@.len() == i,
            forall|k: int| 0 <= k < i ==> pts@[k] == spec_group_lidar(ws@)[k],
        decreases n - i,
    {
        proof {
            assert(ws@.len() == 4 * n) by {
                vstd::arithmetic::div_mod::lemma_fundamental_div_mod(ws@.len() as int, 4);
            };
            assert(4 * i + 3 < ws@.len()) by (nonlinear_arith)
                requires
                    i < n,
                    ws@.len() == 4 * n,
            ;
        }
        pts.push(
            LidarPoint {
                x: ws[4 * i],
                y: ws[4 * i + 1],
                z: ws[4 * i + 2],
                intensity: ws[4 * i + 3],
            },
        );
        i = i + 1;
    }
    proof {
        assert(pts@ =~= spec_group_lidar(ws@));
    }
    pts
}

/// The field descriptor table a lidar point cloud advertises: four 32-bit
/// float fields at offsets 0, 4, 8 and 12.
pub open spec fn lidar_fields_ok(fields: Seq<PointFieldMsg>) -> bool {
    &&& fields.len() == 4
    &&& fields[0].name@ == "x"@ && fields[0].offset == 0
    &&& fields[1].name@ == "y"@ && fields[1].offset == 4
    &&& fields[2].name@ == "z"@ && fields[2].offset == 8
    &&& fields[3].name@ == "intensity"@ && fields[3].offset == 12
    &&& forall|i: int| 0 <= i < 4 ==> #[trigger] fields[i].datatype
        == PointFieldType::FLOAT32.spec_code() && fields[i].count == 1
}

/// Encodes a lidar measurement.  An empty buffer yields no message.  A
/// non-empty buffer of `n` detections yields a cloud of width `n`, point
/// stride 16, row stride `n`, and `16 n` data bytes that decode back to the
/// detections exactly.
pub fn lidar_msg(header: Header, points: &Vec<LidarPoint>, big_endian: bool) -> (r: Option<
    PointCloudMsg,
>)
    requires
        points@.len() <= u32::MAX,
    ensures
        r is Some <==> points@.len() > 0,
        r matches Some(m) ==> {
            &&& m.header == header
            &&& m.height == 1
            &&& m.width == points@.len()
            &&& lidar_fields_ok(m.fields@)
            &&& m.is_bigendian == big_endian
            &&& m.point_step == 16
            &&& m.row_step == points@.len()
            &&& m.data@ == spec_encode_words(spec_lidar_words(points@), big_endian)
            &&& m.is_dense
        },
{
    if points.len() == 0 {
        return None;
    }
    let ws = lidar_words(points);
    let data = encode_words(&ws, big_endian);
    let mut fields: Vec<PointFieldMsg> = Vec::new();
    fields.push(
        PointFieldMsg {
            name: "x".to_owned(),
            offset: 0,
            datatype: PointFieldType::FLOAT32.code(),
            count: 1,
        },
    );
    fields.push(
        PointFieldMsg {
            name: "y".to_owned(),
            offset: 4,
            datatype: PointFieldType::FLOAT32.code(),
            count: 1,
        },
    );
    fields.push(
        PointFieldMsg {
            name: "z".to_owned(),
            offset: 8,
            datatype: PointFieldType::FLOAT32.code(),
            count: 1,
        },
    );
    fields.push(
        PointFieldMsg {
            name: "intensity".to_owned(),
            offset: 12,
            datatype: PointFieldType::FLOAT32.code(),
            count: 1,
        },
    );
    let width = points.len() as u32;
    Some(
        PointCloudMsg {
            header,
            height: 1,
            width,
            fields,
            is_bigendian: big_endian,
            point_step: 16,
            row_step: width,
            data,
            is_dense: true,
        },
    )
}

/// Decodes a lidar point cloud's byte buffer back into detections.
pub fn decode_lidar(data: &Vec<u8>, big_endian: bool) -> (pts: Vec<LidarPoint>)
    requires
        data@.len() % 16 == 0,
    ensures
        pts@ == spec_group_lidar(spec_decode_words(data@, big_endian)),
{
    let ws = decode_words(data, big_endian);
    proof {
        assert(spec_decode_words(data@, big_endian).len() == data@.len() / 4);
        assert(data@.len() % 4 == 0);
        assert((data@.len() / 4) % 4 == 0);
    }
    group_lidar(&ws)
}

/// One semantic lidar detection: position, incidence-angle cosine (32-bit
/// float bit patterns), and the hit object's index and tag (unsigned words).
#[derive(Debug, Clone, Copy, PartialEq, Eq, Structural)]
pub struct SemanticLidarPoint {
    pub x: u32,
    pub y: u32,
    pub z: u32,
    pub cos_inc_angle: u32,
    pub object_idx: u32,
    pub object_tag: u32,
}

/// The word stream of a semantic lidar buffer: six words per detection.
pub open spec fn spec_semantic_words(pts: Seq<SemanticLidarPoint>) -> Seq<u32>
    decreases pts.len(),
{
    if pts.len() == 0 {
        Seq::empty()
    } else {
        seq![pts[0].x, pts[0].y, pts[0].z, pts[0].cos_inc_angle, pts[0].object_idx, pts[0].object_tag]
            + spec_semantic_words(pts.drop_first())
    }
}

pub proof fn lemma_semantic_words_len(pts: Seq<SemanticLidarPoint>)
    ensures
        spec_semantic_words(pts).len() == 6 * pts.len(),
    decreases pts.len(),
{
    if pts.len() > 0 {
        lemma_semantic_words_len(pts.drop_first());
    }
}

proof fn lemma_semantic_words_push(pts: Seq<SemanticLidarPoint>, p: SemanticLidarPoint)
    ensures
        spec_semantic_words(pts.push(p)) =~= spec_semantic_words(pts) + seq![
            p.x,
            p.y,
            p.z,
            p.cos_inc_angle,
            p.object_idx,
            p.object_tag,
        ],
    decreases pts.len(),
{
    if pts.len() == 0 {
        assert(pts.push(p)[0] == p);
        assert(pts.push(p).drop_first() =~= Seq::<SemanticLidarPoint>::empty());
        assert(spec_semantic_words(Seq::<SemanticLidarPoint>::empty()) == Seq::<u32>::empty());
        assert(spec_semantic_words(pts) == Seq::<u32>::empty());
    } else {
        assert(pts.push(p)[0] == pts[0]);
        assert(pts.push(p).drop_first() =~= pts.drop_first().push(p));
        lemma_semantic_words_push(pts.drop_first(), p);
        assert(spec_semantic_words(pts.push(p)) == seq![
            pts[0].x,
            pts[0].y,
            pts[0].z,
            pts[0].cos_inc_angle,
            pts[0].object_idx,
            pts[0].object_tag,
        ] + spec_semantic_words(pts.drop_first().push(p)));
    }
}

/// Flattens a semantic lidar buffer into its word stream.
pub fn semantic_words(points: &Vec<SemanticLidarPoint>) -> (ws: Vec<u32>)
    ensures
        ws@ == spec_semantic_words(points@),
{
    let mut ws: Vec<u32> = Vec::new();
    let mut i: usize = 0;
    while i < points.len()
        invariant
            i <= points@.len(),
            ws@ == spec_semantic_words(points@.take(i as int)),
        decreases points@.len() - i,
    {
        let p = points[i];
        proof {
            lemma_semantic_words_push(points@.take(i as int), points@[i as int]);
            assert(points@.take(i + 1 as int) =~= points@.take(i as int).push(points@[i as int]));
        }
        ws.push(p.x);
        ws.push(p.y);
        ws.push(p.z);
        ws.push(p.cos_inc_angle);
        ws.push(p.object_idx);
        ws.push(p.object_tag);
        proof {
            assert(ws@ =~= spec_semantic_words(points@.take(i as int)) + seq![
                points@[i as int].x,
                points@[i as int].y,
                points@[i as int].z,
                points@[i as int].cos_inc_angle,
                points@[i as int].object_idx,
                points@[i as int].object_tag,
            ]);
        }
        i = i + 1;
    }
    proof {
        assert(points@.take(points@.len() as int) =~= points@);
    }
    ws
}

/// The field descriptor table a semantic point cloud advertises: four 32-bit
/// float fields and two unsigned 32-bit fields, at offsets 0 through 20.
pub open spec fn semantic_fields_ok(fields: Seq<PointFieldMsg>) -> bool {
    &&& fields.len() == 6
    &&& fields[0].name@ == "x"@ && fields[0].offset == 0
    &&& fields[1].name@ == "y"@ && fields[1].offset == 4
    &&& fields[2].name@ == "z"@ && fields[2].offset == 8
    &&& fields[3].name@ == "cos_inc_angle"@ && fields[3].offset == 12
    &&& fields[4].name@ == "object_idx"@ && fields[4].offset == 16
    &&& fields[5].name@ == "object_tag"@ && fields[5].offset == 20
    &&& forall|i: int| 0 <= i < 4 ==> #[trigger] fields[i].datatype
        == PointFieldType::FLOAT32.spec_code()
    &&& fields[4].datatype == PointFieldType::UINT32.spec_code()
    &&& fields[5].datatype == PointFieldType::UINT32.spec_code()
    &&& forall|i: int| 0 <= i < 6 ==> #[trigger] fields[i].count == 1
}

/// Encodes a semantic lidar measurement.  An empty buffer yields no message;
/// a non-empty one yields a cloud of width `n`, point stride 24, row stride
/// `n`, and `24 n` data bytes.
pub fn semantic_lidar_msg(
    header: Header,
    points: &Vec<SemanticLidarPoint>,
    big_endian: bool,
) -> (r: Option<PointCloudMsg>)
    requires
        points@.len() <= u32::MAX,
    ensures
        r is Some <==> points@.len() > 0,
        r matches Some(m) ==> {
            &&& m.header == header
            &&& m.height == 1
            &&& m.width == points@.len()
            &&& semantic_fields_ok(m.fields@)
            &&& m.is_bigendian == big_endian
            &&& m.point_step == 24
            &&& m.row_step == points@.len()
            &&& m.data@ == spec_encode_words(spec_semantic_words(points@), big_endian)
            &&& m.is_dense
        },
{
    if points.len() == 0 {
        return None;
    }
    let ws = semantic_words(points);
    let data = encode_words(&ws, big_endian);
    let mut fields: Vec<PointFieldMsg> = Vec::new();
    fields.push(
        PointFieldMsg {
            name: "x".to_owned(),
            offset: 0,
            datatype: PointFieldType::FLOAT32.code(),
            count: 1,
        },
    );
    fields.push(
        PointFieldMsg {
            name: "y".to_owned(),
            offset: 4,
            datatype: PointFieldType::FLOAT32.code(),
            count: 1,
        },
    );
    fields.push(
        PointFieldMsg {
            name: "z".to_owned(),
            offset: 8,
            datatype: PointFieldType::FLOAT32.code(),
            count: 1,
        },
    );
    fields.push(
        PointFieldMsg {
            name: "cos_inc_angle".to_owned(),
            offset: 12,
            datatype: PointFieldType::FLOAT32.code(),
            count: 1,
        },
    );
    fields.push(
        PointFieldMsg {
            name: "object_idx".to_owned(),
            offset: 16,
            datatype: PointFieldType::UINT32.code(),
            count: 1,
        },
    );
    fields.push(
        PointFieldMsg {
            name: "object_tag".to_owned(),
            offset: 20,
            datatype: PointFieldType::UINT32.code(),
            count: 1,
        },
    );
    let width = points.len() as u32;
    Some(
        PointCloudMsg {
            header,
            height: 1,
            width,
            fields,
            is_bigendian: big_endian,
            point_step: 24,
            row_step: width,
            data,
            is_dense: true,
        },
    )
}

/// One camera pixel in the simulator's `b, g, r, a` order.
#[derive(Debug, Clone, Copy, PartialEq, Eq, Structural)]
pub struct ColorBgra {
    pub b: u8,
    pub g: u8,
    pub r: u8,
    pub a: u8,
}

/// The byte stream of an image: `b, g, r, a` per pixel, row-major.
pub open spec fn spec_bgra_bytes(px: Seq<ColorBgra>) -> Seq<u8>
    decreases px.len(),
{
    if px.len() == 0 {
        Seq::empty()
    } else {
        seq![px[0].b, px[0].g, px[0].r, px[0].a] + spec_bgra_bytes(px.drop_first())
    }
}

pub proof fn lemma_bgra_bytes_len(px: Seq<ColorBgra>)
    ensures
        spec_bgra_bytes(px).len() == 4 * px.len(),
    decreases px.len(),
{
    if px.len() > 0 {
        lemma_bgra_bytes_len(px.drop_first());
    }
}

proof fn lemma_bgra_bytes_push(px: Seq<ColorBgra>, p: ColorBgra)
    ensures
        spec_bgra_bytes(px.push(p)) =~= spec_bgra_bytes(px) + seq![p.b, p.g, p.r, p.a],
    decreases px.len(),
{
    if px.len() == 0 {
        assert(px.push(p)[0] == p);
        assert(px.push(p).drop_first() =~= Seq::<ColorBgra>::empty());
        assert(spec_bgra_bytes(Seq::<ColorBgra>::empty()) == Seq::<u8>::empty());
        assert(spec_bgra_bytes(px) == Seq::<u8>::empty());
    } else {
        assert(px.push(p)[0] == px[0]);
        assert(px.push(p).drop_first() =~= px.drop_first().push(p));
        lemma_bgra_bytes_push(px.drop_first(), p);
        assert(spec_bgra_bytes(px.push(p)) == seq![px[0].b, px[0].g, px[0].r, px[0].a]
            + spec_bgra_bytes(px.drop_first().push(p)));
    }
}

/// Encodes a camera frame.  A zero-length frame yields no message (the
/// simulator sometimes delivers one; it is dropped silently).  Otherwise the
/// message carries the pixels as a row-major `bgra8` byte stream with a row
/// stride of `4 * width` bytes.
pub fn camera_msg(
    header: Header,
    width: u32,
    height: u32,
    pixels: &Vec<ColorBgra>,
    big_endian: bool,
) -> (r: Option<ImageMsg>)
    requires
        pixels@.len() == width * height,
        4 * width <= u32::MAX,
    ensures
        r is Some <==> pixels@.len() > 0,
        r matches Some(m) ==> {
            &&& m.header == header
            &&& m.height == height
            &&& m.width == width
            &&& m.encoding@ == "bgra8"@
            &&& m.is_bigendian == (if big_endian { 1u8 } else { 0u8 })
            &&& m.step == 4 * width
            &&& m.data@ == spec_bgra_bytes(pixels@)
        },
{
    if pixels.len() == 0 {
        return None;
    }
    let mut data: Vec<u8> = Vec::new();
    let mut i: usize = 0;
    while i < pixels.len()
        invariant
            i <= pixels@.len(),
            data@ == spec_bgra_bytes(pixels@.take(i as int)),
        decreases pixels@.len() - i,
    {
        let p = pixels[i];
        proof {
            lemma_bgra_bytes_push(pixels@.take(i as int), pixels@[i as int]);
            assert(pixels@.take(i + 1 as int) =~= pixels@.take(i as int).push(pixels@[i as int]));
        }
        data.push(p.b);
        data.push(p.g);
        data.push(p.r);
        data.push(p.a);
        proof {
            assert(data@ =~= spec_bgra_bytes(pixels@.take(i as int)) + seq![
                pixels@[i as int].b,
                pixels@[i as int].g,
                pixels@[i as int].r,
                pixels@[i as int].a,
            ]);
        }
        i = i + 1;
    }
    proof {
        assert(pixels@.take(pixels@.len() as int) =~= pixels@);
    }
    Some(
        ImageMsg {
            header,
            height,
            width,
            encoding: "bgra8".to_owned(),
            is_bigendian: if big_endian { 1 } else { 0 },
            step: 4 * width,
            data,
        },
    )
}

/// The 32-bit float bit pattern of the negated compass heading: negation
/// flips exactly the sign bit of an IEEE-754 value.  The inertial message's
/// yaw is the negated heading; roll and pitch are zero.
pub fn compass_to_yaw(compass: u32) -> (r: u32)
    ensures
        r == compass ^ 0x8000_0000u32,
{
    compass ^ 0x8000_0000
}

/// Builds an inertial measurement message: orientation, angular velocity and
/// linear acceleration pass through, and all three covariance blocks are the
/// fixed 3 x 3 identity.
pub fn imu_msg(
    header: Header,
    orientation: QuatBits,
    angular_velocity: Vec3Bits,
    linear_acceleration: Vec3Bits,
) -> (m: ImuMsg)
    ensures
        m.header == header,
        m.orientation == orientation,
        m.angular_velocity == angular_velocity,
        m.linear_acceleration == linear_acceleration,
        m.orientation_covariance@ == spec_identity_matrix(3),
        m.angular_velocity_covariance@ == spec_identity_matrix(3),
        m.linear_acceleration_covariance@ == spec_identity_matrix(3),
{
    ImuMsg {
        header,
        orientation,
        orientation_covariance: identity_matrix(3),
        angular_velocity,
        angular_velocity_covariance: identity_matrix(3),
        linear_acceleration,
        linear_acceleration_covariance: identity_matrix(3),
    }
}

/// Builds a collision event message: the event carries no payload beyond its
/// timestamp.
pub fn collision_msg(header: &Header) -> (r: TimeMsg)
    ensures
        r == header.stamp,
{
    header.stamp
}

} // verus!
