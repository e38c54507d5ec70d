//! Enumeration of the device's pixel formats, frame sizes and frame intervals.
//!
//! Each walk is driven from outside: the walk says which query to issue next, the caller
//! hands the driver's answer back, and the walk decides whether to go on.
use vstd::prelude::*;

use crate::bytes::le32;
use crate::error::{Error, EINVAL, EIO};
use crate::v4l2::{
    FmtDesc, Frmivalenum, Frmsizeenum, FMT_FLAG_COMPRESSED, FMT_FLAG_EMULATED,
    FRMIVAL_TYPE_DISCRETE, FRMSIZE_TYPE_DISCRETE,
};

verus! {

/// The text that bytes hold, read as UTF-8 with each invalid sequence replaced.
pub uninterp spec fn utf8_lossy(b: Seq<u8>) -> Seq<char>;

/// The characters of bytes that are all ASCII.
pub open spec fn ascii_text(b: Seq<u8>) -> Seq<char> {
    Seq::new(b.len(), |i: int| b[i] as char)
}

pub open spec fn is_ascii(b: Seq<u8>) -> bool {
    forall|i: int| 0 <= i < b.len() ==> b[i] < 128
}

/// Relies on `String::from_utf8_lossy`: the bytes read as UTF-8, each invalid sequence
/// replaced; valid input, such as ASCII, comes back as it is.
#[verifier::external_body]
pub(crate) fn lossy_string(b: &[u8]) -> (r: String)
    ensures
        r@ == utf8_lossy(b@),
        is_ascii(b@) ==> r@ == ascii_text(b@),
{
    String::from_utf8_lossy(b).into_owned()
}

/// Length of the C string stored in `b`: up to the first NUL, or all of `b`.
pub open spec fn c_len(b: Seq<u8>) -> int {
    if exists|i: int| 0 <= i < b.len() && b[i] == 0 {
        choose|i: int| 0 <= i < b.len() && b[i] == 0 && forall|j: int| 0 <= j < i ==> b[j] != 0
    } else {
        b.len() as int
    }
}

proof fn lemma_c_len(b: Seq<u8>, n: int)
    requires
        0 <= n <= b.len(),
        forall|j: int| 0 <= j < n ==> b[j] != 0,
        n == b.len() || b[n] == 0,
    ensures
        c_len(b) == n,
{
    if exists|i: int| 0 <= i < b.len() && b[i] == 0 {
        assert(0 <= n < b.len() && b[n] == 0 && forall|j: int| 0 <= j < n ==> b[j] != 0);
        let k = c_len(b);
        assert(0 <= k < b.len() && b[k] == 0 && forall|j: int| 0 <= j < k ==> b[j] != 0);
        if k < n {
            assert(b[k] != 0);
        }
        if n < k {
            assert(b[n] != 0);
        }
    }
}

/// The text of a NUL-terminated byte string of the driver.
pub open spec fn c_text(b: Seq<u8>) -> Seq<char> {
    utf8_lossy(b.take(c_len(b)))
}

pub fn buffer_to_string(buf: &[u8]) -> (r: String)
    ensures
        r@ == c_text(buf@),
        is_ascii(buf@.take(c_len(buf@))) ==> r@ == ascii_text(buf@.take(c_len(buf@))),
{
    let mut n: usize = 0;
    while n < buf.len() && buf[n] != 0
        invariant
            n <= buf.len(),
            forall|j: int| 0 <= j < n ==> buf@[j] != 0,
        decreases buf.len() - n,
    {
        n = n + 1;
    }
    proof {
        lemma_c_len(buf@, n as int);
    }
    let head = slice_prefix(buf, n);
    lossy_string(head)
}

fn slice_prefix(buf: &[u8], n: usize) -> (r: &[u8])
    requires
        n <= buf.len(),
    ensures
        r@ == buf@.take(n as int),
{
    vstd::slice::slice_subrange(buf, 0, n)
}

/// The four bytes of a FourCC code, first character lowest.
pub open spec fn fourcc_of(fmt: Seq<u8>) -> u32 {
    (fmt[0] as u32) | ((fmt[1] as u32) << 8u32) | ((fmt[2] as u32) << 16u32) | ((
    fmt[3] as u32) << 24u32)
}

/// Description of a pixel format.
#[derive(Debug)]
pub struct FormatInfo {
    /// FourCC of format (e.g. `b"H264"`).
    pub format: [u8; 4],
    /// Information about the format.
    pub description: String,
    /// Raw or compressed.
    pub compressed: bool,
    /// Whether it's transcoded from a different input format.
    pub emulated: bool,
}

impl FormatInfo {
    pub fn new(fourcc: u32, desc: &[u8], flags: u32) -> (r: FormatInfo)
        ensures
            r.format@ == le32(fourcc),
            r.description@ == c_text(desc@),
            r.compressed == (flags & FMT_FLAG_COMPRESSED != 0),
            r.emulated == (flags & FMT_FLAG_EMULATED != 0),
    {
        let format = [
            (fourcc & 0xff) as u8,
            ((fourcc >> 8u32) & 0xff) as u8,
            ((fourcc >> 16u32) & 0xff) as u8,
            ((fourcc >> 24u32) & 0xff) as u8,
        ];
        assert(format@ =~= le32(fourcc));
        FormatInfo {
            format,
            description: buffer_to_string(desc),
            compressed: flags & FMT_FLAG_COMPRESSED != 0,
            emulated: flags & FMT_FLAG_EMULATED != 0,
        }
    }

    /// The FourCC code of a four-byte format name.
    pub fn fourcc(fmt: &[u8]) -> (r: u32)
        requires
            fmt@.len() == 4,
        ensures
            r == fourcc_of(fmt@),
    {
        (fmt[0] as u32) | ((fmt[1] as u32) << 8u32) | ((fmt[2] as u32) << 16u32) | ((
        fmt[3] as u32) << 24u32)
    }
}

/// What a listing of formats yields for one answer: the format's code bytes, its
/// description and its two flags.
pub open spec fn format_item(d: FmtDesc) -> (Seq<u8>, Seq<char>, bool, bool) {
    (
        le32(d.pixelformat),
        c_text(d.description@),
        d.flags & FMT_FLAG_COMPRESSED != 0,
        d.flags & FMT_FLAG_EMULATED != 0,
    )
}

impl FormatInfo {
    pub open spec fn item(self) -> (Seq<u8>, Seq<char>, bool, bool) {
        (self.format@, self.description@, self.compressed, self.emulated)
    }
}

/// Position of a listing of formats: the index to query next, or the end of the index
/// space.
pub struct FormatIter {
    index: u32,
    exhausted: bool,
}

pub struct FormatIterView {
    pub index: u32,
    pub exhausted: bool,
}

impl View for FormatIter {
    type V = FormatIterView;

    closed spec fn view(&self) -> FormatIterView {
        FormatIterView { index: self.index, exhausted: self.exhausted }
    }
}

/// The position after a successful answer at `v`.
pub open spec fn format_advance(v: FormatIterView) -> FormatIterView {
    if v.index < u32::MAX {
        FormatIterView { index: (v.index + 1) as u32, exhausted: false }
    } else {
        FormatIterView { index: v.index, exhausted: true }
    }
}

/// The position of a listing that has been answered `answers`, one successful answer
/// after another, from its start.
pub open spec fn format_position(answers: nat) -> FormatIterView
    decreases answers,
{
    if answers == 0 {
        FormatIterView { index: 0, exhausted: false }
    } else {
        format_advance(format_position((answers - 1) as nat))
    }
}

/// A listing at `v` once the driver's `reply` is taken: the position it moves to, and what
/// it yields (the format's item, nothing at the end of the list, or the error). The end
/// of the list and any error end the listing.
pub open spec fn format_step(
    v: FormatIterView,
    reply: core::result::Result<FmtDesc, i32>,
) -> (FormatIterView, Option<core::result::Result<(Seq<u8>, Seq<char>, bool, bool), Error>>) {
    if v.exhausted {
        (v, None)
    } else {
        match reply {
            Ok(d) => (format_advance(v), Some(Ok(format_item(d)))),
            Err(e) => (
                FormatIterView { exhausted: true, ..v },
                if e == EINVAL {
                    None
                } else {
                    Some(Err(Error::Io(e)))
                },
            ),
        }
    }
}

/// What a result of `FormatIter::next` yields, formats seen through `item`.
pub open spec fn yielded(r: Option<crate::error::Result<FormatInfo>>) -> Option<
    core::result::Result<(Seq<u8>, Seq<char>, bool, bool), Error>,
> {
    match r {
        None => None,
        Some(Ok(info)) => Some(Ok(info.item())),
        Some(Err(e)) => Some(Err(e)),
    }
}

impl FormatIter {
    /// A listing from the first format.
    pub fn new() -> (r: FormatIter)
        ensures
            r@ == format_position(0),
    {
        FormatIter { index: 0, exhausted: false }
    }

    /// Whether the listing is over: past its last index, at the end of the list, or on an
    /// error.
    pub fn is_exhausted(&self) -> (r: bool)
        ensures
            r == self@.exhausted,
    {
        self.exhausted
    }

    /// The query for the next format.
    pub fn request(&self) -> (r: FmtDesc)
        ensures
            r.index == self@.index,
            r.ftype == crate::v4l2::BUF_TYPE_VIDEO_CAPTURE,
            r.flags == 0,
            r.pixelformat == 0,
            r.description@ == crate::bytes::zeros(32),
    {
        FmtDesc::new(self.index)
    }

    /// Takes the driver's answer to `request`: the format it describes, `None` at the end
    /// of the list, or the error, after which the listing is over.
    pub fn next(&mut self, reply: core::result::Result<FmtDesc, i32>) -> (r: Option<
        crate::error::Result<FormatInfo>,
    >)
        ensures
            (final(self)@, yielded(r)) == format_step(old(self)@, reply),
    {
        if self.exhausted {
            return None;
        }
        match reply {
            Ok(d) => {
                if self.index < u32::MAX {
                    self.index = self.index + 1;
                } else {
                    self.exhausted = true;
                }
                Some(Ok(FormatInfo::new(d.pixelformat, d.description.as_slice(), d.flags)))
            },
            Err(e) => {
                self.exhausted = true;
                if e == EINVAL {
                    None
                } else {
                    Some(Err(Error::Io(e)))
                }
            },
        }
    }
}

/// A listing of formats asks, after `n` formats, for the format at index `n`.
pub proof fn lemma_format_position(n: nat)
    requires
        n <= u32::MAX,
    ensures
        format_position(n).index == n,
        !format_position(n).exhausted,
    decreases n,
{
    if n > 0 {
        lemma_format_position((n - 1) as nat);
    }
}

/// The first `n` calls of `next` on a fresh listing of a device whose answer to the query
/// at index `i` is `dev(i)`: the position reached and what each call yielded.
pub open spec fn format_listing(
    dev: spec_fn(u32) -> core::result::Result<FmtDesc, i32>,
    n: nat,
) -> (FormatIterView, Seq<Option<core::result::Result<(Seq<u8>, Seq<char>, bool, bool), Error>>>)
    decreases n,
{
    if n == 0 {
        (format_position(0), seq![])
    } else {
        let (v, out) = format_listing(dev, (n - 1) as nat);
        let (w, o) = format_step(v, dev(v.index));
        (w, out.push(o))
    }
}

/// Listing the formats is restartable: two fresh listings of a device that answers each
/// index the same way yield the same results, call for call, in the same order.
pub proof fn lemma_format_listing_restartable(
    dev1: spec_fn(u32) -> core::result::Result<FmtDesc, i32>,
    dev2: spec_fn(u32) -> core::result::Result<FmtDesc, i32>,
    n: nat,
)
    requires
        forall|i: u32| #[trigger] dev1(i) == dev2(i),
    ensures
        format_listing(dev1, n) == format_listing(dev2, n),
    decreases n,
{
    if n > 0 {
        lemma_format_listing_restartable(dev1, dev2, (n - 1) as nat);
        let v = format_listing(dev1, (n - 1) as nat).0;
        assert(dev1(v.index) == dev2(v.index));
    }
}

/// While the device describes a format at each index, the `i`-th call of a fresh listing
/// yields the format at index `i`.
pub proof fn lemma_format_listing_in_order(
    dev: spec_fn(u32) -> core::result::Result<FmtDesc, i32>,
    n: nat,
)
    requires
        n <= u32::MAX,
        forall|i: u32| i < n ==> #[trigger] dev(i) is Ok,
    ensures
        format_listing(dev, n).0 == format_position(n),
        format_listing(dev, n).1.len() == n,
        forall|i: int|
            0 <= i < n ==> #[trigger] format_listing(dev, n).1[i] == Some(
                Ok::<(Seq<u8>, Seq<char>, bool, bool), Error>(format_item(dev(i as u32)->Ok_0)),
            ),
    decreases n,
{
    if n > 0 {
        let m = (n - 1) as nat;
        lemma_format_listing_in_order(dev, m);
        lemma_format_position(m);
        let (v, out) = format_listing(dev, m);
        assert(v.index == m);
        assert(dev(m as u32) is Ok);
        let full = format_listing(dev, n).1;
        assert forall|i: int| 0 <= i < n implies #[trigger] full[i] == Some(
            Ok::<(Seq<u8>, Seq<char>, bool, bool), Error>(format_item(dev(i as u32)->Ok_0)),
        ) by {
            if i < m {
                assert(full[i] == out[i]);
            }
        }
    }
}

/// Frame sizes of a format: a list of discrete sizes, or a stepwise range.
#[derive(Debug, PartialEq, Eq)]
pub enum ResolutionInfo {
    Discretes(Vec<(u32, u32)>),
    Stepwise { min: (u32, u32), max: (u32, u32), step: (u32, u32) },
}

/// Frame intervals of a format at one size: a list of discrete intervals, or a stepwise
/// range.
#[derive(Debug, PartialEq, Eq)]
pub enum IntervalInfo {
    Discretes(Vec<(u32, u32)>),
    Stepwise { min: (u32, u32), max: (u32, u32), step: (u32, u32) },
}

/// State of a walk over an indexed list of the driver: what it asks about (the frame size
/// only for a walk over intervals, else 0 by 0), the next index, and the discrete entries
/// found so far.
pub struct WalkView {
    pub fourcc: u32,
    pub width: u32,
    pub height: u32,
    pub index: u32,
    pub found: Seq<(u32, u32)>,
}

impl WalkView {
    /// Nothing is found before the first answer.
    pub open spec fn wf(self) -> bool {
        self.index == 0 ==> self.found.len() == 0
    }

    /// A walk over sizes also finds no size twice.
    pub open spec fn sizes_wf(self) -> bool {
        self.wf() && self.found.no_duplicates()
    }
}

/// A list of sizes or intervals as plain values: discrete pairs, or a stepwise range given
/// as its minimum, maximum and step.
pub enum Shape {
    Discretes(Seq<(u32, u32)>),
    Stepwise((u32, u32), (u32, u32), (u32, u32)),
}

pub open spec fn resolution_shape(r: ResolutionInfo) -> Shape {
    match r {
        ResolutionInfo::Discretes(v) => Shape::Discretes(v@),
        ResolutionInfo::Stepwise { min, max, step } => Shape::Stepwise(min, max, step),
    }
}

pub open spec fn interval_shape(r: IntervalInfo) -> Shape {
    match r {
        IntervalInfo::Discretes(v) => Shape::Discretes(v@),
        IntervalInfo::Stepwise { min, max, step } => Shape::Stepwise(min, max, step),
    }
}

/// What a walk over sizes yields, seen as plain values.
pub open spec fn sizes_outcome(r: Option<crate::error::Result<ResolutionInfo>>) -> Option<
    core::result::Result<Shape, Error>,
> {
    match r {
        None => None,
        Some(Ok(info)) => Some(Ok(resolution_shape(info))),
        Some(Err(e)) => Some(Err(e)),
    }
}

/// What a walk over intervals yields, seen as plain values.
pub open spec fn intervals_outcome(r: Option<crate::error::Result<IntervalInfo>>) -> Option<
    core::result::Result<Shape, Error>,
> {
    match r {
        None => None,
        Some(Ok(info)) => Some(Ok(interval_shape(info))),
        Some(Err(e)) => Some(Err(e)),
    }
}

/// The stepwise range that the six words of a frame-size answer describe.
pub open spec fn size_range(w: Seq<u32>) -> ((u32, u32), (u32, u32), (u32, u32)) {
    ((w[0], w[3]), (w[1], w[4]), (w[2], w[5]))
}

/// The stepwise range that the six words of a frame-interval answer describe.
pub open spec fn interval_range(w: Seq<u32>) -> ((u32, u32), (u32, u32), (u32, u32)) {
    ((w[0], w[1]), (w[2], w[3]), (w[4], w[5]))
}

/// A size range that makes sense: `min <= max` on each axis and a nonzero step.
pub open spec fn size_range_ok(r: ((u32, u32), (u32, u32), (u32, u32))) -> bool {
    r.0.0 <= r.1.0 && r.0.1 <= r.1.1 && r.2.0 > 0 && r.2.1 > 0
}

/// `found` with `p` added at the end, unless it is there already.
pub open spec fn add_pair(found: Seq<(u32, u32)>, p: (u32, u32)) -> Seq<(u32, u32)> {
    if found.contains(p) {
        found
    } else {
        found.push(p)
    }
}

/// A walk at `v` that takes the discrete entries `found`: it goes on to the next index, or
/// ends with the list at the last index there is.
pub open spec fn discrete_step(v: WalkView, found: Seq<(u32, u32)>) -> (
    WalkView,
    Option<core::result::Result<Shape, Error>>,
) {
    let w = WalkView { found, ..v };
    if v.index < u32::MAX {
        (WalkView { index: (v.index + 1) as u32, ..w }, None)
    } else {
        (w, Some(Ok(Shape::Discretes(w.found))))
    }
}

/// A walk over sizes at `v` once the driver's `reply` is taken: the state it moves to, and
/// `None` while it goes on, else what it yields. "Does not apply" ends the list (empty at
/// the first index); a first answer of another format is `BadFormat`; a stepwise range
/// that makes no sense is `Io(EIO)`.
pub open spec fn size_step(v: WalkView, reply: core::result::Result<Frmsizeenum, i32>) -> (
    WalkView,
    Option<core::result::Result<Shape, Error>>,
) {
    match reply {
        Err(e) => (
            v,
            Some(
                if e == EINVAL {
                    Ok(Shape::Discretes(v.found))
                } else {
                    Err(Error::Io(e))
                },
            ),
        ),
        Ok(s) => if v.index > 0 {
            discrete_step(v, add_pair(v.found, (s.data@[0], s.data@[1])))
        } else if s.pixelformat != v.fourcc {
            (v, Some(Err(Error::BadFormat)))
        } else if s.ftype == FRMSIZE_TYPE_DISCRETE {
            discrete_step(v, add_pair(v.found, (s.data@[0], s.data@[1])))
        } else if size_range_ok(size_range(s.data@)) {
            let r = size_range(s.data@);
            (v, Some(Ok(Shape::Stepwise(r.0, r.1, r.2))))
        } else {
            (v, Some(Err(Error::Io(EIO))))
        },
    }
}

/// The same for a walk over intervals, which keeps every discrete entry as the driver
/// reports it and a stepwise range as the driver gives it; a first answer at another frame
/// size is `BadResolution`.
pub open spec fn interval_step(v: WalkView, reply: core::result::Result<Frmivalenum, i32>) -> (
    WalkView,
    Option<core::result::Result<Shape, Error>>,
) {
    match reply {
        Err(e) => (
            v,
            Some(
                if e == EINVAL {
                    Ok(Shape::Discretes(v.found))
                } else {
                    Err(Error::Io(e))
                },
            ),
        ),
        Ok(s) => if v.index > 0 {
            discrete_step(v, v.found.push((s.data@[0], s.data@[1])))
        } else if s.pixelformat != v.fourcc {
            (v, Some(Err(Error::BadFormat)))
        } else if s.width != v.width || s.height != v.height {
            (v, Some(Err(Error::BadResolution)))
        } else if s.ftype == FRMIVAL_TYPE_DISCRETE {
            discrete_step(v, v.found.push((s.data@[0], s.data@[1])))
        } else {
            let r = interval_range(s.data@);
            (v, Some(Ok(Shape::Stepwise(r.0, r.1, r.2))))
        },
    }
}

/// A copy of a list of pairs.
fn copy_pairs(v: &Vec<(u32, u32)>) -> (r: Vec<(u32, u32)>)
    ensures
        r@ == v@,
{
    let mut r: Vec<(u32, u32)> = Vec::new();
    let mut i: usize = 0;
    while i < v.len()
        invariant
            i <= v.len(),
            r@ == v@.subrange(0, i as int),
        decreases v.len() - i,
    {
        r.push(v[i]);
        i = i + 1;
        assert(r@ =~= v@.subrange(0, i as int));
    }
    assert(r@ =~= v@);
    r
}

fn contains_pair(v: &Vec<(u32, u32)>, p: (u32, u32)) -> (r: bool)
    ensures
        r == v@.contains(p),
{
    let mut i: usize = 0;
    while i < v.len()
        invariant
            i <= v.len(),
            forall|j: int| 0 <= j < i ==> v@[j] != p,
        decreases v.len() - i,
    {
        if v[i].0 == p.0 && v[i].1 == p.1 {
            assert(v@[i as int] == p);
            return true;
        }
        i = i + 1;
    }
    false
}

/// Adds `p` to a list without repeats, unless it is there already.
fn add_found(found: &mut Vec<(u32, u32)>, p: (u32, u32))
    requires
        old(found)@.no_duplicates(),
    ensures
        final(found)@ == add_pair(old(found)@, p),
        final(found)@.no_duplicates(),
{
    if !contains_pair(found, p) {
        let ghost before = found@;
        found.push(p);
        assert forall|i: int, j: int|
            0 <= i < found@.len() && 0 <= j < found@.len() && i != j implies found@[i]
            != found@[j] by {
            if i < before.len() && j < before.len() {
                assert(before[i] != before[j]);
            } else if i < before.len() {
                assert(before.contains(before[i]));
            } else {
                assert(before.contains(before[j]));
            }
        }
    }
}

fn stepwise_sizes(s: &Frmsizeenum) -> (r: crate::error::Result<ResolutionInfo>)
    ensures
        size_range_ok(size_range(s.data@)) ==> (r matches Ok(info) && resolution_shape(info)
            == Shape::Stepwise(
            size_range(s.data@).0,
            size_range(s.data@).1,
            size_range(s.data@).2,
        )),
        !size_range_ok(size_range(s.data@)) ==> r == Err::<ResolutionInfo, Error>(Error::Io(EIO)),
{
    let sw = s.stepwise();
    if sw.min_width <= sw.max_width && sw.min_height <= sw.max_height && sw.step_width > 0
        && sw.step_height > 0 {
        Ok(
            ResolutionInfo::Stepwise {
                min: (sw.min_width, sw.min_height),
                max: (sw.max_width, sw.max_height),
                step: (sw.step_width, sw.step_height),
            },
        )
    } else {
        Err(Error::Io(EIO))
    }
}

/// Walk over the frame sizes of one format.
pub struct ResolutionWalk {
    fourcc: u32,
    index: u32,
    found: Vec<(u32, u32)>,
}

impl View for ResolutionWalk {
    type V = WalkView;

    closed spec fn view(&self) -> WalkView {
        WalkView { fourcc: self.fourcc, width: 0, height: 0, index: self.index, found: self.found@ }
    }
}

impl ResolutionWalk {
    /// A walk over the sizes of `format`; a format name that is not four bytes long is
    /// rejected.
    pub fn new(format: &[u8]) -> (r: crate::error::Result<ResolutionWalk>)
        ensures
            format@.len() != 4 ==> r == Err::<ResolutionWalk, Error>(Error::BadFormat),
            format@.len() == 4 ==> (r matches Ok(w) && w@ == (WalkView {
                fourcc: fourcc_of(format@),
                width: 0,
                height: 0,
                index: 0,
                found: seq![],
            })),
    {
        if format.len() != 4 {
            return Err(Error::BadFormat);
        }
        let w = ResolutionWalk { fourcc: FormatInfo::fourcc(format), index: 0, found: Vec::new() };
        assert(w@.found =~= seq![]);
        Ok(w)
    }

    /// The query to issue next.
    pub fn request(&self) -> (r: Frmsizeenum)
        ensures
            r.index == self@.index,
            r.pixelformat == self@.fourcc,
            r.ftype == 0,
            r.data@ == seq![0u32, 0, 0, 0, 0, 0],
    {
        let mut r = Frmsizeenum::new(self.fourcc);
        r.index = self.index;
        r
    }

    /// Takes the driver's answer to `request`: `None` when the walk goes on, else the
    /// sizes or the error.
    pub fn answer(&mut self, reply: core::result::Result<Frmsizeenum, i32>) -> (r: Option<
        crate::error::Result<ResolutionInfo>,
    >)
        requires
            old(self)@.sizes_wf(),
        ensures
            final(self)@.sizes_wf(),
            (final(self)@, sizes_outcome(r)) == size_step(old(self)@, reply),
    {
        let s = match reply {
            Ok(s) => s,
            Err(e) => {
                if e != EINVAL {
                    return Some(Err(Error::Io(e)));
                }
                return Some(Ok(ResolutionInfo::Discretes(copy_pairs(&self.found))));
            },
        };
        if self.index == 0 {
            if s.pixelformat != self.fourcc {
                return Some(Err(Error::BadFormat));
            }
            if s.ftype != FRMSIZE_TYPE_DISCRETE {
                return Some(stepwise_sizes(&s));
            }
        }
        let d = s.discrete();
        add_found(&mut self.found, (d.width, d.height));
        if self.index < u32::MAX {
            self.index = self.index + 1;
            None
        } else {
            Some(Ok(ResolutionInfo::Discretes(copy_pairs(&self.found))))
        }
    }
}

/// Walk over the frame intervals of one format at one frame size.
pub struct IntervalWalk {
    fourcc: u32,
    resolution: (u32, u32),
    index: u32,
    found: Vec<(u32, u32)>,
}

impl View for IntervalWalk {
    type V = WalkView;

    closed spec fn view(&self) -> WalkView {
        WalkView {
            fourcc: self.fourcc,
            width: self.resolution.0,
            height: self.resolution.1,
            index: self.index,
            found: self.found@,
        }
    }
}

impl IntervalWalk {
    /// A walk over the intervals of `format` at `resolution`; a format name that is not
    /// four bytes long is rejected.
    pub fn new(format: &[u8], resolution: (u32, u32)) -> (r: crate::error::Result<IntervalWalk>)
        ensures
            format@.len() != 4 ==> r == Err::<IntervalWalk, Error>(Error::BadFormat),
            format@.len() == 4 ==> (r matches Ok(w) && w@ == (WalkView {
                fourcc: fourcc_of(format@),
                width: resolution.0,
                height: resolution.1,
                index: 0,
                found: seq![],
            })),
    {
        if format.len() != 4 {
            return Err(Error::BadFormat);
        }
        let w = IntervalWalk {
            fourcc: FormatInfo::fourcc(format),
            resolution,
            index: 0,
            found: Vec::new(),
        };
        assert(w@.found =~= seq![]);
        Ok(w)
    }

    /// The query to issue next.
    pub fn request(&self) -> (r: Frmivalenum)
        ensures
            r.index == self@.index,
            r.pixelformat == self@.fourcc,
            r.width == self@.width,
            r.height == self@.height,
            r.ftype == 0,
            r.data@ == seq![0u32, 0, 0, 0, 0, 0],
    {
        let mut r = Frmivalenum::new(self.fourcc, self.resolution);
        r.index = self.index;
        r
    }

    /// Takes the driver's answer to `request`: `None` when the walk goes on, else the
    /// intervals or the error.
    pub fn answer(&mut self, reply: core::result::Result<Frmivalenum, i32>) -> (r: Option<
        crate::error::Result<IntervalInfo>,
    >)
        requires
            old(self)@.wf(),
        ensures
            final(self)@.wf(),
            (final(self)@, intervals_outcome(r)) == interval_step(old(self)@, reply),
    {
        let s = match reply {
            Ok(s) => s,
            Err(e) => {
                if e != EINVAL {
                    return Some(Err(Error::Io(e)));
                }
                return Some(Ok(IntervalInfo::Discretes(copy_pairs(&self.found))));
            },
        };
        if self.index == 0 {
            if s.pixelformat != self.fourcc {
                return Some(Err(Error::BadFormat));
            }
            if s.width != self.resolution.0 || s.height != self.resolution.1 {
                return Some(Err(Error::BadResolution));
            }
            if s.ftype != FRMIVAL_TYPE_DISCRETE {
                let sw = s.stepwise();
                return Some(
                    Ok(
                        IntervalInfo::Stepwise {
                            min: (sw.min.numerator, sw.min.denominator),
                            max: (sw.max.numerator, sw.max.denominator),
                            step: (sw.step.numerator, sw.step.denominator),
                        },
                    ),
                );
            }
        }
        let d = s.discrete();
        self.found.push((d.numerator, d.denominator));
        if self.index < u32::MAX {
            self.index = self.index + 1;
            None
        } else {
            Some(Ok(IntervalInfo::Discretes(copy_pairs(&self.found))))
        }
    }
}

/// `found` with each of `pairs` added in turn by `add_pair`.
pub open spec fn add_all(found: Seq<(u32, u32)>, pairs: Seq<(u32, u32)>) -> Seq<(u32, u32)>
    decreases pairs.len(),
{
    if pairs.len() == 0 {
        found
    } else {
        add_all(add_pair(found, pairs[0]), pairs.drop_first())
    }
}

/// What a walk over sizes at `v` yields when the driver gives `replies` in turn, if it ends
/// within them.
pub open spec fn size_run(v: WalkView, replies: Seq<core::result::Result<Frmsizeenum, i32>>) -> Option<
    core::result::Result<Shape, Error>,
>
    decreases replies.len(),
{
    if replies.len() == 0 {
        None
    } else {
        let (w, out) = size_step(v, replies[0]);
        match out {
            None => size_run(w, replies.drop_first()),
            Some(o) => Some(o),
        }
    }
}

/// The pairs of discrete size answers.
pub open spec fn size_pairs(answers: Seq<Frmsizeenum>) -> Seq<(u32, u32)> {
    answers.map_values(|s: Frmsizeenum| (s.data@[0], s.data@[1]))
}

/// The driver's replies: each answer, then "does not apply".
pub open spec fn answered_then_end(answers: Seq<Frmsizeenum>) -> Seq<
    core::result::Result<Frmsizeenum, i32>,
> {
    answers.map_values(|s: Frmsizeenum| Ok::<Frmsizeenum, i32>(s)).push(Err(EINVAL))
}

proof fn lemma_add_all(found: Seq<(u32, u32)>, pairs: Seq<(u32, u32)>)
    requires
        found.no_duplicates(),
    ensures
        add_all(found, pairs).no_duplicates(),
        forall|p: (u32, u32)| #[trigger]
            add_all(found, pairs).contains(p) <==> found.contains(p) || pairs.contains(p),
        found.len() <= add_all(found, pairs).len(),
        forall|i: int| 0 <= i < found.len() ==> #[trigger] add_all(found, pairs)[i] == found[i],
    decreases pairs.len(),
{
    if pairs.len() > 0 {
        let next = add_pair(found, pairs[0]);
        if !found.contains(pairs[0]) {
            assert forall|i: int, j: int|
                0 <= i < next.len() && 0 <= j < next.len() && i != j implies next[i]
                != next[j] by {
                if i < found.len() && j < found.len() {
                } else if i < found.len() {
                    assert(found.contains(found[i]));
                } else {
                    assert(found.contains(found[j]));
                }
            }
        }
        assert forall|p: (u32, u32)| next.contains(p) <==> found.contains(p) || p == pairs[0] by {
            if !found.contains(pairs[0]) && next.contains(p) {
                let k = choose|k: int| 0 <= k < next.len() && next[k] == p;
                if k < found.len() {
                    assert(found[k] == p);
                }
            }
            if found.contains(p) && !found.contains(pairs[0]) {
                let k = choose|k: int| 0 <= k < found.len() && found[k] == p;
                assert(next[k] == p);
            }
            if p == pairs[0] && !found.contains(pairs[0]) {
                assert(next[found.len() as int] == p);
            }
        }
        lemma_add_all(next, pairs.drop_first());
        assert forall|p: (u32, u32)| pairs.contains(p) <==> p == pairs[0]
            || pairs.drop_first().contains(p) by {
            if pairs.contains(p) && p != pairs[0] {
                let k = choose|k: int| 0 <= k < pairs.len() && pairs[k] == p;
                assert(pairs.drop_first()[k - 1] == p);
            }
            if pairs.drop_first().contains(p) {
                let k = choose|k: int| 0 <= k < pairs.drop_first().len() && pairs.drop_first()[k] == p;
                assert(pairs[k + 1] == p);
            }
            if p == pairs[0] {
                assert(pairs[0] == p);
            }
        }
    }
}

proof fn lemma_discrete_run(v: WalkView, answers: Seq<Frmsizeenum>)
    requires
        v.index as int + answers.len() < u32::MAX,
        forall|i: int|
            0 <= i < answers.len() ==> (#[trigger] answers[i]).pixelformat == v.fourcc
                && answers[i].ftype == FRMSIZE_TYPE_DISCRETE,
    ensures
        size_run(v, answered_then_end(answers)) == Some(
            Ok::<Shape, Error>(Shape::Discretes(add_all(v.found, size_pairs(answers)))),
        ),
    decreases answers.len(),
{
    let replies = answered_then_end(answers);
    if answers.len() == 0 {
        assert(replies[0] == Err::<Frmsizeenum, i32>(EINVAL));
    } else {
        let s = answers[0];
        assert(replies[0] == Ok::<Frmsizeenum, i32>(s));
        let p = (s.data@[0], s.data@[1]);
        let w = WalkView { index: (v.index + 1) as u32, found: add_pair(v.found, p), ..v };
        assert(size_step(v, replies[0]) == (w, None::<core::result::Result<Shape, Error>>));
        let rest = answers.drop_first();
        assert(replies.drop_first() =~= answered_then_end(rest));
        assert(size_pairs(answers)[0] == p);
        assert(size_pairs(answers).drop_first() =~= size_pairs(rest));
        lemma_discrete_run(w, rest);
    }
}

/// A walk over discrete sizes yields the driver's pairs in the driver's order, each once:
/// for any number `k >= 1` of discrete answers of the format followed by "does not apply",
/// the list holds exactly the pairs answered, with no repeats, a repeated pair kept where it
/// came first.
pub proof fn lemma_discrete_sizes(fourcc: u32, answers: Seq<Frmsizeenum>)
    requires
        1 <= answers.len() < u32::MAX,
        forall|i: int|
            0 <= i < answers.len() ==> (#[trigger] answers[i]).pixelformat == fourcc
                && answers[i].ftype == FRMSIZE_TYPE_DISCRETE,
    ensures
        ({
            let start = WalkView { fourcc, width: 0, height: 0, index: 0, found: seq![] };
            let list = add_all(seq![], size_pairs(answers));
            &&& size_run(start, answered_then_end(answers)) == Some(
                Ok::<Shape, Error>(Shape::Discretes(list)),
            )
            &&& list.no_duplicates()
            &&& forall|p: (u32, u32)| #[trigger] list.contains(p) <==> size_pairs(answers).contains(p)
        }),
{
    let start = WalkView { fourcc, width: 0, height: 0, index: 0, found: seq![] };
    lemma_discrete_run(start, answers);
    assert(Seq::<(u32, u32)>::empty().no_duplicates());
    lemma_add_all(seq![], size_pairs(answers));
}

/// A walk over sizes that yields a stepwise range yields one that makes sense: `min <= max`
/// on each axis and a nonzero step.
pub proof fn lemma_stepwise_sizes(v: WalkView, reply: core::result::Result<Frmsizeenum, i32>)
    ensures
        size_step(v, reply).1 matches Some(Ok(Shape::Stepwise(min, max, step))) ==> min.0
            <= max.0 && min.1 <= max.1 && step.0 > 0 && step.1 > 0,
{
}

/// What a walk over intervals at `v` yields when the driver gives `replies` in turn, if it
/// ends within them.
pub open spec fn interval_run(
    v: WalkView,
    replies: Seq<core::result::Result<Frmivalenum, i32>>,
) -> Option<core::result::Result<Shape, Error>>
    decreases replies.len(),
{
    if replies.len() == 0 {
        None
    } else {
        let (w, out) = interval_step(v, replies[0]);
        match out {
            None => interval_run(w, replies.drop_first()),
            Some(o) => Some(o),
        }
    }
}

/// The pairs of discrete interval answers.
pub open spec fn interval_pairs(answers: Seq<Frmivalenum>) -> Seq<(u32, u32)> {
    answers.map_values(|s: Frmivalenum| (s.data@[0], s.data@[1]))
}

/// The driver's replies: each interval answer, then "does not apply".
pub open spec fn intervals_then_end(answers: Seq<Frmivalenum>) -> Seq<
    core::result::Result<Frmivalenum, i32>,
> {
    answers.map_values(|s: Frmivalenum| Ok::<Frmivalenum, i32>(s)).push(Err(EINVAL))
}

proof fn lemma_interval_run(v: WalkView, answers: Seq<Frmivalenum>)
    requires
        v.index as int + answers.len() < u32::MAX,
        forall|i: int|
            0 <= i < answers.len() ==> (#[trigger] answers[i]).pixelformat == v.fourcc
                && answers[i].width == v.width && answers[i].height == v.height
                && answers[i].ftype == FRMIVAL_TYPE_DISCRETE,
    ensures
        interval_run(v, intervals_then_end(answers)) == Some(
            Ok::<Shape, Error>(Shape::Discretes(v.found + interval_pairs(answers))),
        ),
    decreases answers.len(),
{
    let replies = intervals_then_end(answers);
    if answers.len() == 0 {
        assert(replies[0] == Err::<Frmivalenum, i32>(EINVAL));
        assert(v.found + interval_pairs(answers) =~= v.found);
    } else {
        let s = answers[0];
        assert(replies[0] == Ok::<Frmivalenum, i32>(s));
        let p = (s.data@[0], s.data@[1]);
        let w = WalkView { index: (v.index + 1) as u32, found: v.found.push(p), ..v };
        assert(interval_step(v, replies[0]) == (w, None::<core::result::Result<Shape, Error>>));
        let rest = answers.drop_first();
        assert(replies.drop_first() =~= intervals_then_end(rest));
        lemma_interval_run(w, rest);
        assert(w.found + interval_pairs(rest) =~= v.found + interval_pairs(answers));
    }
}

/// A walk over discrete intervals yields the driver's list as it is: for any number
/// `k >= 1` of discrete answers of the format at the frame size, followed by "does not
/// apply", the list is the answered pairs in index order, none added or dropped.
pub proof fn lemma_discrete_intervals(fourcc: u32, resolution: (u32, u32), answers: Seq<Frmivalenum>)
    requires
        1 <= answers.len() < u32::MAX,
        forall|i: int|
            0 <= i < answers.len() ==> (#[trigger] answers[i]).pixelformat == fourcc
                && answers[i].width == resolution.0 && answers[i].height == resolution.1
                && answers[i].ftype == FRMIVAL_TYPE_DISCRETE,
    ensures
        interval_run(
            WalkView { fourcc, width: resolution.0, height: resolution.1, index: 0, found: seq![] },
            intervals_then_end(answers),
        ) == Some(Ok::<Shape, Error>(Shape::Discretes(interval_pairs(answers)))),
        interval_pairs(answers).len() == answers.len(),
{
    let start = WalkView { fourcc, width: resolution.0, height: resolution.1, index: 0, found: seq![] };
    lemma_interval_run(start, answers);
    assert(start.found + interval_pairs(answers) =~= interval_pairs(answers));
}

} // verus!
