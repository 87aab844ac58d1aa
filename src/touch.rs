//! Touch report decoding.
//!
//! Only the minimal per-point fields are decoded: action, coordinates and
//! track index. Weight and area bytes vary between chip variants and are
//! ignored.
use vstd::prelude::*;

use crate::{answered_byte, bus_error, read_register, Error, Ft6336, I2cBus};

verus! {

/// Register holding the touch count, followed by the point records.
pub const REG_TOUCH_COUNT: u8 = 0x02;

/// Length of the raw block fetched for point decoding: the count byte
/// followed by the point records.
pub const RAW_BLOCK_LEN: usize = 11;

/// Length of one point record.
pub const RECORD_LEN: usize = 6;

/// Most points that a raw block carries.
pub const MAX_POINTS: u8 = 2;

/// Point action.
#[derive(Debug, Clone, Copy, PartialEq, Eq, Structural)]
pub enum PointAction {
    PressDown,
    LiftUp,
    Contact,
    NoAction,
}

/// Action named by a two-bit action code; any code outside 0..=2 is `NoAction`.
pub open spec fn action_of_code(code: u8) -> PointAction {
    if code == 0 {
        PointAction::PressDown
    } else if code == 1 {
        PointAction::LiftUp
    } else if code == 2 {
        PointAction::Contact
    } else {
        PointAction::NoAction
    }
}

/// Code of an action, the inverse of `action_of_code` on 0..=3.
pub open spec fn code_of_action(a: PointAction) -> u8 {
    match a {
        PointAction::PressDown => 0,
        PointAction::LiftUp => 1,
        PointAction::Contact => 2,
        PointAction::NoAction => 3,
    }
}

impl PointAction {
    /// Decodes an action code, falling back to `NoAction` on unknown codes.
    pub fn from_primitive(code: u8) -> (r: PointAction)
        ensures
            r == action_of_code(code),
    {
        if code == 0 {
            PointAction::PressDown
        } else if code == 1 {
            PointAction::LiftUp
        } else if code == 2 {
            PointAction::Contact
        } else {
            PointAction::NoAction
        }
    }

    /// The action's code.
    pub fn to_primitive(self) -> (r: u8)
        ensures
            r == code_of_action(self),
    {
        match self {
            PointAction::PressDown => 0,
            PointAction::LiftUp => 1,
            PointAction::Contact => 2,
            PointAction::NoAction => 3,
        }
    }
}

/// One decoded touch point.
#[derive(Debug, Clone, Copy, PartialEq, Eq, Structural)]
pub struct Point {
    /// Track index, 0..=15.
    pub index: u8,
    pub action: PointAction,
    /// Horizontal coordinate, 0..=4095.
    pub x: u16,
    /// Vertical coordinate, 0..=4095.
    pub y: u16,
}

/// Point packed in the first four bytes of a record: the action in the top two
/// bits of `b0`, x in the low nibble of `b0` and all of `b1`, the track index in
/// the top nibble of `b2`, y in the low nibble of `b2` and all of `b3`.
pub open spec fn record_point(b0: u8, b1: u8, b2: u8, b3: u8) -> Point {
    Point {
        index: b2 / 16,
        action: action_of_code(b0 / 64),
        x: ((b0 % 16) * 256 + b1) as u16,
        y: ((b2 % 16) * 256 + b3) as u16,
    }
}

/// The `k`-th point record of a raw block, counting from zero.
pub open spec fn block_point(block: Seq<u8>, k: int) -> Point {
    let base = 1 + RECORD_LEN * k;
    record_point(block[base], block[base + 1], block[base + 2], block[base + 3])
}

/// Number of points decoded from a block: the count byte, capped by what the
/// block can hold.
pub open spec fn decoded_count(block: Seq<u8>) -> nat {
    if block[0] < MAX_POINTS {
        block[0] as nat
    } else {
        MAX_POINTS as nat
    }
}

/// Points of a raw block in the order they are produced: last record first.
pub open spec fn block_points(block: Seq<u8>) -> Seq<Point> {
    let n = decoded_count(block);
    Seq::new(n, |i: int| block_point(block, n - 1 - i))
}

/// Six-byte record that packs the given fields.
pub open spec fn record_of(action: u8, x: u16, y: u16, index: u8) -> Seq<u8> {
    seq![
        (action * 64 + x / 256) as u8,
        (x % 256) as u8,
        (index * 16 + y / 256) as u8,
        (y % 256) as u8,
        0u8,
        0u8,
    ]
}


/// A block whose count byte is zero yields no points.
pub proof fn lemma_no_touch_no_points(block: Seq<u8>)
    requires
        block.len() == RAW_BLOCK_LEN,
        block[0] == 0,
    ensures
        block_points(block) == Seq::<Point>::empty(),
{
    assert(block_points(block) =~= Seq::<Point>::empty());
}

/// A block whose count byte is one yields exactly the point of its first record.
pub proof fn lemma_one_touch_first_record(block: Seq<u8>)
    requires
        block.len() == RAW_BLOCK_LEN,
        block[0] == 1,
    ensures
        block_points(block) == seq![record_point(block[1], block[2], block[3], block[4])],
{
    assert(block_points(block) =~= seq![record_point(block[1], block[2], block[3], block[4])]);
}

/// A block whose count byte is two yields the second record's point, then the
/// first record's.
pub proof fn lemma_two_touches_last_first(block: Seq<u8>)
    requires
        block.len() == RAW_BLOCK_LEN,
        block[0] == 2,
    ensures
        block_points(block) == seq![
            record_point(block[7], block[8], block[9], block[10]),
            record_point(block[1], block[2], block[3], block[4]),
        ],
{
    assert(block_points(block) =~= seq![
        record_point(block[7], block[8], block[9], block[10]),
        record_point(block[1], block[2], block[3], block[4]),
    ]);
}

/// However large the count byte, no more points are produced than the block
/// holds records for.
pub proof fn lemma_count_capped(block: Seq<u8>)
    requires
        block.len() == RAW_BLOCK_LEN,
    ensures
        block_points(block).len() <= MAX_POINTS,
        block_points(block).len() <= block[0],
{
}

/// Packing an action code in 0..=2, 12-bit coordinates and a 4-bit index into a
/// record, then decoding it, gives back the same fields.
pub proof fn lemma_record_round_trip(action: u8, x: u16, y: u16, index: u8)
    requires
        action <= 2,
        x < 4096,
        y < 4096,
        index < 16,
    ensures
        ({
            let r = record_of(action, x, y, index);
            record_point(r[0], r[1], r[2], r[3]) == Point {
                index,
                action: action_of_code(action),
                x,
                y,
            }
        }),
{
    let r = record_of(action, x, y, index);
    assert(r[0] / 64 == action && r[0] % 16 == x / 256) by (nonlinear_arith)
        requires
            r[0] == action * 64 + x / 256,
            x / 256 < 16,
            action <= 2,
    ;
    assert(r[2] / 16 == index && r[2] % 16 == y / 256) by (nonlinear_arith)
        requires
            r[2] == index * 16 + y / 256,
            y / 256 < 16,
            index < 16,
    ;
}

/// A record whose action bits are the unknown code 3 decodes to `NoAction`.
pub proof fn lemma_unknown_action_no_action(b0: u8, b1: u8, b2: u8, b3: u8)
    requires
        b0 / 64 == 3,
    ensures
        record_point(b0, b1, b2, b3).action == PointAction::NoAction,
{
}

fn decode_record(b0: u8, b1: u8, b2: u8, b3: u8) -> (p: Point)
    ensures
        p == record_point(b0, b1, b2, b3),
{
    Point {
        index: b2 / 16,
        action: PointAction::from_primitive(b0 / 64),
        x: ((b0 % 16) as u16) * 256 + (b1 as u16),
        y: ((b2 % 16) as u16) * 256 + (b3 as u16),
    }
}

/// Cursor over the points of one raw touch block.
///
/// The count byte doubles as the cursor: each step lowers it by one and
/// decodes the record it then names, so records come out last first.
#[derive(Debug, Clone, Copy, PartialEq)]
pub struct PointsIter {
    data: [u8; 11],
}

impl PointsIter {
    /// Points still to be produced.
    pub closed spec fn remaining(&self) -> Seq<Point> {
        block_points(self.data@)
    }

    /// Cursor over the points of `data`, a raw block whose first byte is the
    /// touch count.
    pub fn new(data: [u8; 11]) -> (r: PointsIter)
        ensures
            r.remaining() == block_points(data@),
    {
        PointsIter { data }
    }

    /// Produces the next point, or `None` once all are out.
    pub fn next(&mut self) -> (r: Option<Point>)
        ensures
            old(self).remaining().len() == 0 ==> r is None && final(self).remaining()
                == old(self).remaining(),
            old(self).remaining().len() > 0 ==> r == Some(old(self).remaining()[0])
                && final(self).remaining() == old(self).remaining().drop_first(),
    {
        let mut n: u8 = self.data[0];
        if n > MAX_POINTS {
            n = MAX_POINTS;
        }
        if n > 0 {
            n = n - 1;
            self.data[0] = n;
            let base: usize = 1 + (n as usize) * RECORD_LEN;
            let p = decode_record(
                self.data[base],
                self.data[base + 1],
                self.data[base + 2],
                self.data[base + 3],
            );
            assert(self.remaining() =~= old(self).remaining().drop_first());
            Some(p)
        } else {
            None
        }
    }

    /// Produces all remaining points, in order.
    pub fn collect_points(self) -> (r: Vec<Point>)
        ensures
            r@ == self.remaining(),
    {
        let ghost all = self.remaining();
        let mut cursor = self;
        let mut out: Vec<Point> = Vec::new();
        loop
            invariant
                all == self.remaining(),
                out@ + cursor.remaining() == all,
            decreases cursor.remaining().len(),
        {
            match cursor.next() {
                Some(p) => {
                    out.push(p);
                },
                None => {
                    assert(cursor.remaining() =~= Seq::<Point>::empty());
                    assert(out@ =~= all);
                    return out;
                },
            }
        }
    }
}

impl<I2C: I2cBus> Ft6336<I2C> {
    /// Reads the current touch count.
    pub fn touch_count(&mut self) -> (r: Result<u8, Error>)
        ensures
            read_register(old(self).log(), final(self).log(), REG_TOUCH_COUNT, 1),
            answered_byte(final(self).log().last(), r),
    {
        self.read_u8(REG_TOUCH_COUNT)
    }

    /// Reads the whole touch report: the count byte and two full records.
    pub fn touches_raw(&mut self) -> (r: Result<[u8; 13], Error>)
        ensures
            read_register(old(self).log(), final(self).log(), REG_TOUCH_COUNT, 13),
            (r is Ok) == (final(self).log().last().result is Ok),
            r is Ok ==> r->Ok_0@ == final(self).log().last().received,
            r is Err ==> r->Err_0 == bus_error(final(self).log().last()),
    {
        let mut buf: [u8; 13] = [0; 13];
        match self.read_buf(REG_TOUCH_COUNT, &mut buf) {
            Ok(()) => Ok(buf),
            Err(e) => Err(e),
        }
    }

    /// Reads the touch report and returns a cursor over its points.
    pub fn touch_points_iter(&mut self) -> (r: Result<PointsIter, Error>)
        ensures
            read_register(old(self).log(), final(self).log(), REG_TOUCH_COUNT, 11),
            (r is Ok) == (final(self).log().last().result is Ok),
            r is Ok ==> r->Ok_0.remaining() == block_points(final(self).log().last().received),
            r is Err ==> r->Err_0 == bus_error(final(self).log().last()),
    {
        let mut buf: [u8; 11] = [0; 11];
        match self.read_buf(REG_TOUCH_COUNT, &mut buf) {
            Ok(()) => Ok(PointsIter::new(buf)),
            Err(e) => Err(e),
        }
    }
}

} // verus!
