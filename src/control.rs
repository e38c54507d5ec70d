//! Device controls: their data model, the queries that read one control, the listing of
//! all controls, and the values that can be set.
use vstd::prelude::*;

use crate::enumerate::{buffer_to_string, c_text};
use crate::error::{Error, EINVAL};
use crate::v4l2::{
    Control as RawControl, ExtControl, ExtControls, QueryCtrl, QueryExtCtrl, QueryMenu, CTRL_TYPE_BITMASK,
    CTRL_TYPE_BOOLEAN, CTRL_TYPE_BUTTON, CTRL_TYPE_CTRL_CLASS, CTRL_TYPE_INTEGER,
    CTRL_TYPE_INTEGER64, CTRL_TYPE_INTEGER_MENU, CTRL_TYPE_MENU, CTRL_TYPE_STRING, ID2CLASS,
    NEXT_CTRL,
};

verus! {

pub struct Control {
    pub id: u32,
    pub name: String,
    pub data: CtrlData,
    /// See `FLAG_*` constants for details.
    pub flags: u32,
}

#[allow(inconsistent_fields)]
pub enum CtrlData {
    Integer { value: i32, default: i32, minimum: i32, maximum: i32, step: i32 },
    Boolean { value: bool, default: bool },
    Menu { value: u32, default: u32, items: Vec<CtrlMenuItem> },
    Button,
    Integer64 { value: i64, default: i64, minimum: i64, maximum: i64, step: i64 },
    CtrlClass,
    String { value: String, minimum: u32, maximum: u32, step: u32 },
    Bitmask { value: u32, default: u32, maximum: u32 },
    IntegerMenu { value: u32, default: u32, items: Vec<CtrlIntMenuItem> },
    Unknown,
}

pub struct CtrlMenuItem {
    pub index: u32,
    pub name: String,
}

pub struct CtrlIntMenuItem {
    pub index: u32,
    pub value: i64,
}

/// The class bits of a control id.
pub open spec fn class_of(id: u32) -> u32 {
    id & ID2CLASS
}

pub fn control_class(id: u32) -> (r: u32)
    ensures
        r == class_of(id),
{
    id & ID2CLASS
}

/// What is asked of the driver next while reading one control.
#[derive(Debug, Clone, Copy, PartialEq, Eq, Structural)]
pub enum Stage {
    /// The control's type, bounds and flags.
    Query,
    /// Its current 32-bit value.
    Value,
    /// Its 64-bit bounds.
    ExtQuery,
    /// Its current 64-bit value.
    ExtValue,
    /// Its current string.
    Text,
    /// The menu item at this index.
    MenuItem(u32),
    /// Nothing: the control is read.
    Done,
}

/// A query of the driver while reading one control.
pub enum CtrlRequest {
    /// `VIDIOC_QUERYCTRL`.
    Query(QueryCtrl),
    /// `VIDIOC_G_CTRL`.
    Value(RawControl),
    /// `VIDIOC_QUERY_EXT_CTRL`.
    ExtQuery(QueryExtCtrl),
    /// `VIDIOC_G_EXT_CTRLS` of the control's class.
    ExtValue(ExtControl),
    /// `VIDIOC_G_EXT_CTRLS` of the control's class, into a buffer of `size` bytes whose
    /// address the caller stores in `value`.
    Text(ExtControl),
    /// `VIDIOC_QUERYMENU`.
    MenuItem(QueryMenu),
}

/// The driver's answer to a `CtrlRequest` of the same name.
pub enum CtrlAnswer {
    Query(QueryCtrl),
    Value(RawControl),
    ExtQuery(QueryExtCtrl),
    ExtValue(ExtControl),
    /// The buffer that the driver filled.
    Text(Vec<u8>),
    MenuItem(QueryMenu),
}

/// What follows the query of a control of type `qtype`.
pub open spec fn stage_after_query(qtype: u32) -> Stage {
    if qtype == CTRL_TYPE_INTEGER || qtype == CTRL_TYPE_BOOLEAN || qtype == CTRL_TYPE_MENU
        || qtype == CTRL_TYPE_BITMASK || qtype == CTRL_TYPE_INTEGER_MENU {
        Stage::Value
    } else if qtype == CTRL_TYPE_INTEGER64 {
        Stage::ExtQuery
    } else if qtype == CTRL_TYPE_STRING {
        Stage::Text
    } else {
        Stage::Done
    }
}

/// What follows the 32-bit value of control `q`: its menu items, from the lowest index,
/// where it is a menu with any.
pub open spec fn stage_after_value(q: QueryCtrl) -> Stage {
    if (q.qtype == CTRL_TYPE_MENU || q.qtype == CTRL_TYPE_INTEGER_MENU) && q.minimum as u32
        <= q.maximum as u32 {
        Stage::MenuItem(q.minimum as u32)
    } else {
        Stage::Done
    }
}

/// What follows the menu item at `index` of control `q`.
pub open spec fn stage_after_item(q: QueryCtrl, index: u32) -> Stage {
    if index < q.maximum as u32 {
        Stage::MenuItem((index + 1) as u32)
    } else {
        Stage::Done
    }
}

/// What has been read of one control so far.
pub struct ControlQueryView {
    pub id: u32,
    pub stage: Stage,
    pub query: QueryCtrl,
    pub ext: QueryExtCtrl,
    pub value: i32,
    pub value64: i64,
    pub text: Seq<char>,
    pub menu: Seq<(u32, Seq<char>)>,
    pub int_menu: Seq<(u32, i64)>,
}

/// The data of a control as read: `q` its query, the rest what was fetched for its type.
pub open spec fn data_matches(d: CtrlData, v: ControlQueryView) -> bool {
    let q = v.query;
    if q.qtype == CTRL_TYPE_INTEGER {
        d == CtrlData::Integer {
            value: v.value,
            default: q.default_value,
            minimum: q.minimum,
            maximum: q.maximum,
            step: q.step,
        }
    } else if q.qtype == CTRL_TYPE_BOOLEAN {
        d == CtrlData::Boolean { value: v.value != 0, default: q.default_value != 0 }
    } else if q.qtype == CTRL_TYPE_MENU {
        d matches CtrlData::Menu { value, default, items } && value == v.value as u32 && default
            == q.default_value as u32 && items@.len() == v.menu.len() && forall|i: int|
            0 <= i < v.menu.len() ==> items@[i].index == v.menu[i].0 && items@[i].name@
                == v.menu[i].1
    } else if q.qtype == CTRL_TYPE_BUTTON {
        d is Button
    } else if q.qtype == CTRL_TYPE_INTEGER64 {
        d == CtrlData::Integer64 {
            value: v.value64,
            default: v.ext.default_value,
            minimum: v.ext.minimum,
            maximum: v.ext.maximum,
            step: v.ext.step as i64,
        }
    } else if q.qtype == CTRL_TYPE_CTRL_CLASS {
        d is CtrlClass
    } else if q.qtype == CTRL_TYPE_STRING {
        d matches CtrlData::String { value, minimum, maximum, step } && value@ == v.text
            && minimum == q.minimum as u32 && maximum == q.maximum as u32 && step == q.step as u32
    } else if q.qtype == CTRL_TYPE_BITMASK {
        d == CtrlData::Bitmask {
            value: v.value as u32,
            default: q.default_value as u32,
            maximum: q.maximum as u32,
        }
    } else if q.qtype == CTRL_TYPE_INTEGER_MENU {
        d matches CtrlData::IntegerMenu { value, default, items } && value == v.value as u32
            && default == q.default_value as u32 && items@.len() == v.int_menu.len() && forall|
            i: int,
        | 0 <= i < v.int_menu.len() ==> items@[i].index == v.int_menu[i].0 && items@[i].value
            == v.int_menu[i].1
    } else {
        d is Unknown
    }
}

/// The control that a finished read describes.
pub open spec fn control_matches(c: Control, v: ControlQueryView) -> bool {
    &&& c.id == v.query.id
    &&& c.name@ == c_text(v.query.name@)
    &&& c.flags == v.query.flags
    &&& data_matches(c.data, v)
}

/// Whether `a` answers what is asked at `stage`; a menu item comes with its 32 bytes.
pub open spec fn answers(stage: Stage, a: CtrlAnswer) -> bool {
    match stage {
        Stage::Query => a is Query,
        Stage::Value => a is Value,
        Stage::ExtQuery => a is ExtQuery,
        Stage::ExtValue => a is ExtValue,
        Stage::Text => a is Text,
        Stage::MenuItem(_) => a matches CtrlAnswer::MenuItem(m) && m.data.raw@.len() == 32,
        Stage::Done => false,
    }
}

/// The error with which a read ends on `reply`, if it ends on one: any failure of the
/// driver but a menu index that does not apply, and a string control too long for its
/// terminator.
pub open spec fn read_failure(
    v: ControlQueryView,
    reply: core::result::Result<CtrlAnswer, i32>,
) -> Option<Error> {
    match reply {
        Err(e) => if v.stage is MenuItem && e == EINVAL {
            None
        } else {
            Some(Error::Io(e))
        },
        Ok(CtrlAnswer::Query(q)) => if q.qtype == CTRL_TYPE_STRING && q.maximum as u32
            == u32::MAX {
            Some(Error::Io(EINVAL))
        } else {
            None
        },
        Ok(_) => None,
    }
}

/// The value of an integer-menu item: the first eight bytes, little-endian.
pub open spec fn item_value(raw: Seq<u8>) -> i64 {
    crate::bytes::u64_at(raw, 0) as i64
}

/// What has been read once `reply` is taken at `v`.
pub open spec fn read_after(
    v: ControlQueryView,
    reply: core::result::Result<CtrlAnswer, i32>,
) -> ControlQueryView {
    match reply {
        Err(_) => match v.stage {
            Stage::MenuItem(i) => ControlQueryView { stage: stage_after_item(v.query, i), ..v },
            _ => v,
        },
        Ok(CtrlAnswer::Query(q)) => ControlQueryView {
            query: q,
            stage: stage_after_query(q.qtype),
            ..v
        },
        Ok(CtrlAnswer::Value(c)) => ControlQueryView {
            value: c.value,
            stage: stage_after_value(v.query),
            ..v
        },
        Ok(CtrlAnswer::ExtQuery(e)) => ControlQueryView { ext: e, stage: Stage::ExtValue, ..v },
        Ok(CtrlAnswer::ExtValue(x)) => ControlQueryView {
            value64: x.value,
            stage: Stage::Done,
            ..v
        },
        Ok(CtrlAnswer::Text(b)) => ControlQueryView { text: c_text(b@), stage: Stage::Done, ..v },
        Ok(CtrlAnswer::MenuItem(m)) => match v.stage {
            Stage::MenuItem(i) => if v.query.qtype == CTRL_TYPE_MENU {
                ControlQueryView {
                    menu: v.menu.push((i, c_text(m.data.raw@))),
                    stage: stage_after_item(v.query, i),
                    ..v
                }
            } else {
                ControlQueryView {
                    int_menu: v.int_menu.push((i, item_value(m.data.raw@))),
                    stage: stage_after_item(v.query, i),
                    ..v
                }
            },
            _ => v,
        },
    }
}

/// A read of one control, one query at a time.
pub struct ControlQuery {
    id: u32,
    stage: Stage,
    query: QueryCtrl,
    ext: QueryExtCtrl,
    value: i32,
    value64: i64,
    text: String,
    menu: Vec<CtrlMenuItem>,
    int_menu: Vec<CtrlIntMenuItem>,
}

/// Where a read stands after an answer.
pub enum ReadStep {
    /// More is to be asked.
    Next(ControlQuery),
    /// The read is over.
    Finished(crate::error::Result<Control>),
}

impl View for ControlQuery {
    type V = ControlQueryView;

    closed spec fn view(&self) -> ControlQueryView {
        ControlQueryView {
            id: self.id,
            stage: self.stage,
            query: self.query,
            ext: self.ext,
            value: self.value,
            value64: self.value64,
            text: self.text@,
            menu: self.menu@.map_values(|m: CtrlMenuItem| (m.index, m.name@)),
            int_menu: self.int_menu@.map_values(|m: CtrlIntMenuItem| (m.index, m.value)),
        }
    }
}

impl ControlQuery {
    /// A read of control `id` (with `NEXT_CTRL` set, of the first control after `id`).
    pub fn new(id: u32) -> (r: ControlQuery)
        ensures
            r@.id == id,
            r@.stage == Stage::Query,
            r@.menu.len() == 0,
            r@.int_menu.len() == 0,
    {
        ControlQuery {
            id,
            stage: Stage::Query,
            query: QueryCtrl::new(id),
            ext: QueryExtCtrl::new(id),
            value: 0,
            value64: 0,
            text: String::new(),
            menu: Vec::new(),
            int_menu: Vec::new(),
        }
    }

    pub fn stage(&self) -> (r: Stage)
        ensures
            r == self@.stage,
    {
        self.stage
    }

    /// The query to issue next.
    pub fn request(&self) -> (r: CtrlRequest)
        requires
            !(self@.stage is Done),
        ensures
            self@.stage is Query ==> (r matches CtrlRequest::Query(q) && q.id == self@.id
                && q.qtype == 0),
            self@.stage is Value ==> r == CtrlRequest::Value(
                RawControl { id: self@.query.id, value: 0 },
            ),
            self@.stage is ExtQuery ==> (r matches CtrlRequest::ExtQuery(q) && q.id
                == self@.query.id && q.elem_size == 8 && q.elems == 1),
            self@.stage is ExtValue ==> r == CtrlRequest::ExtValue(
                ExtControl { id: self@.query.id, size: 0, value: 0 },
            ),
            self@.stage is Text && (self@.query.maximum as u32) < u32::MAX ==> r == CtrlRequest::Text(
                ExtControl {
                    id: self@.query.id,
                    size: (self@.query.maximum as u32 + 1) as u32,
                    value: 0,
                },
            ),
            self@.stage matches Stage::MenuItem(i) ==> (r matches CtrlRequest::MenuItem(m) && m.id
                == self@.query.id && m.index == i),
    {
        match self.stage {
            Stage::Query => CtrlRequest::Query(QueryCtrl::new(self.id)),
            Stage::Value => CtrlRequest::Value(RawControl::new(self.query.id)),
            Stage::ExtQuery => CtrlRequest::ExtQuery(QueryExtCtrl::new(self.query.id)),
            Stage::ExtValue => CtrlRequest::ExtValue(ExtControl::new(self.query.id, 0)),
            Stage::Text => {
                let max = self.query.maximum as u32;
                if max < u32::MAX {
                    CtrlRequest::Text(ExtControl::new(self.query.id, max + 1))
                } else {
                    CtrlRequest::Text(ExtControl::new(self.query.id, 0))
                }
            },
            Stage::MenuItem(i) => {
                let mut m = QueryMenu::new(self.query.id);
                m.index = i;
                CtrlRequest::MenuItem(m)
            },
            Stage::Done => CtrlRequest::Query(QueryCtrl::new(self.id)),
        }
    }

    /// Takes the driver's answer to `request`.
    pub fn answer(self, reply: core::result::Result<CtrlAnswer, i32>) -> (r: ReadStep)
        requires
            !(self@.stage is Done),
            reply is Ok ==> answers(self@.stage, reply->Ok_0),
        ensures
            match read_failure(self@, reply) {
                Some(e) => r is Finished && r->Finished_0 == Err::<Control, Error>(e),
                None => {
                    let w = read_after(self@, reply);
                    &&& w.stage is Done ==> (r matches ReadStep::Finished(Ok(c)) && control_matches(
                        c,
                        w,
                    ))
                    &&& !(w.stage is Done) ==> (r matches ReadStep::Next(next) && next@ == w)
                },
            },
    {
        let mut s = self;
        match reply {
            Err(e) => {
                match s.stage {
                    Stage::MenuItem(i) => {
                        if e == EINVAL {
                            s.stage = item_successor(&s.query, i);
                        } else {
                            return ReadStep::Finished(Err(Error::Io(e)));
                        }
                    },
                    _ => {
                        return ReadStep::Finished(Err(Error::Io(e)));
                    },
                }
            },
            Ok(a) => match a {
                CtrlAnswer::Query(q) => {
                    if q.qtype == CTRL_TYPE_STRING && q.maximum as u32 == u32::MAX {
                        return ReadStep::Finished(Err(Error::Io(EINVAL)));
                    }
                    s.stage = query_successor(q.qtype);
                    s.query = q;
                },
                CtrlAnswer::Value(c) => {
                    s.value = c.value;
                    s.stage = value_successor(&s.query);
                },
                CtrlAnswer::ExtQuery(e) => {
                    s.ext = e;
                    s.stage = Stage::ExtValue;
                },
                CtrlAnswer::ExtValue(x) => {
                    s.value64 = x.value;
                    s.stage = Stage::Done;
                },
                CtrlAnswer::Text(b) => {
                    s.text = buffer_to_string(b.as_slice());
                    s.stage = Stage::Done;
                },
                CtrlAnswer::MenuItem(m) => {
                    if let Stage::MenuItem(i) = s.stage {
                        if s.query.qtype == CTRL_TYPE_MENU {
                            let item = CtrlMenuItem { index: i, name: buffer_to_string(m.data.name()) };
                            s.menu.push(item);
                        } else {
                            let item = CtrlIntMenuItem { index: i, value: m.data.value() };
                            s.int_menu.push(item);
                        }
                        s.stage = item_successor(&s.query, i);
                    }
                },
            },
        }
        proof {
            assert(s@.menu =~= read_after(self@, reply).menu);
            assert(s@.int_menu =~= read_after(self@, reply).int_menu);
        }
        if let Stage::Done = s.stage {
            ReadStep::Finished(Ok(s.build()))
        } else {
            ReadStep::Next(s)
        }
    }

    /// The control that this read describes.
    fn build(self) -> (c: Control)
        ensures
            control_matches(c, self@),
    {
        let ghost v = self@;
        let ControlQuery { id: _, stage: _, query, ext, value, value64, text, menu, int_menu } =
            self;
        let qtype = query.qtype;
        let data = if qtype == CTRL_TYPE_INTEGER {
            CtrlData::Integer {
                value,
                default: query.default_value,
                minimum: query.minimum,
                maximum: query.maximum,
                step: query.step,
            }
        } else if qtype == CTRL_TYPE_BOOLEAN {
            CtrlData::Boolean { value: value != 0, default: query.default_value != 0 }
        } else if qtype == CTRL_TYPE_MENU {
            CtrlData::Menu { value: value as u32, default: query.default_value as u32, items: menu }
        } else if qtype == CTRL_TYPE_BUTTON {
            CtrlData::Button
        } else if qtype == CTRL_TYPE_INTEGER64 {
            CtrlData::Integer64 {
                value: value64,
                default: ext.default_value,
                minimum: ext.minimum,
                maximum: ext.maximum,
                step: ext.step as i64,
            }
        } else if qtype == CTRL_TYPE_CTRL_CLASS {
            CtrlData::CtrlClass
        } else if qtype == CTRL_TYPE_STRING {
            CtrlData::String {
                value: text,
                minimum: query.minimum as u32,
                maximum: query.maximum as u32,
                step: query.step as u32,
            }
        } else if qtype == CTRL_TYPE_BITMASK {
            CtrlData::Bitmask {
                value: value as u32,
                default: query.default_value as u32,
                maximum: query.maximum as u32,
            }
        } else if qtype == CTRL_TYPE_INTEGER_MENU {
            CtrlData::IntegerMenu {
                value: value as u32,
                default: query.default_value as u32,
                items: int_menu,
            }
        } else {
            CtrlData::Unknown
        };
        let name = buffer_to_string(query.name.as_slice());
        Control { id: query.id, name, data, flags: query.flags }
    }
}

fn query_successor(qtype: u32) -> (r: Stage)
    ensures
        r == stage_after_query(qtype),
{
    if qtype == CTRL_TYPE_INTEGER || qtype == CTRL_TYPE_BOOLEAN || qtype == CTRL_TYPE_MENU
        || qtype == CTRL_TYPE_BITMASK || qtype == CTRL_TYPE_INTEGER_MENU {
        Stage::Value
    } else if qtype == CTRL_TYPE_INTEGER64 {
        Stage::ExtQuery
    } else if qtype == CTRL_TYPE_STRING {
        Stage::Text
    } else {
        Stage::Done
    }
}

fn value_successor(q: &QueryCtrl) -> (r: Stage)
    ensures
        r == stage_after_value(*q),
{
    if (q.qtype == CTRL_TYPE_MENU || q.qtype == CTRL_TYPE_INTEGER_MENU) && q.minimum as u32
        <= q.maximum as u32 {
        Stage::MenuItem(q.minimum as u32)
    } else {
        Stage::Done
    }
}

fn item_successor(q: &QueryCtrl, index: u32) -> (r: Stage)
    ensures
        r == stage_after_item(*q, index),
{
    if index < q.maximum as u32 {
        Stage::MenuItem(index + 1)
    } else {
        Stage::Done
    }
}

/// Position of a listing of controls: the id after which to ask, and the class to keep
/// to (0 for every class).
pub struct ControlIter {
    id: u32,
    class: u32,
}

pub struct ControlIterView {
    pub id: u32,
    pub class: u32,
}

impl View for ControlIter {
    type V = ControlIterView;

    closed spec fn view(&self) -> ControlIterView {
        ControlIterView { id: self.id, class: self.class }
    }
}

impl ControlIter {
    /// A listing of every control.
    pub fn new() -> (r: ControlIter)
        ensures
            r@ == (ControlIterView { id: 0, class: 0 }),
    {
        ControlIter { id: 0, class: 0 }
    }

    /// A listing of the controls of one class (see `CLASS_*` constants).
    pub fn by_class(class: u32) -> (r: ControlIter)
        ensures
            r@ == (ControlIterView { id: class, class }),
    {
        ControlIter { id: class, class }
    }

    /// The id to read next: the first control after the last one listed.
    pub fn next_id(&self) -> (r: u32)
        ensures
            r == self@.id | NEXT_CTRL,
    {
        self.id | NEXT_CTRL
    }

    /// Takes the read of `next_id`: the control, `None` at the end of the listing, or the
    /// error.
    pub fn next(&mut self, read: crate::error::Result<Control>) -> (r: Option<
        crate::error::Result<Control>,
    >)
        ensures
            final(self)@.class == old(self)@.class,
            match read {
                Ok(c) => {
                    &&& old(self)@.class > 0 && class_of(c.id) != old(self)@.class ==> r is None
                        && final(self)@ == old(self)@
                    &&& !(old(self)@.class > 0 && class_of(c.id) != old(self)@.class) ==> (r matches Some(
                        Ok(d),
                    ) && d == c && final(self)@.id == c.id)
                },
                Err(e) => {
                    &&& e == Error::Io(EINVAL) ==> r is None
                    &&& e != Error::Io(EINVAL) ==> r == Some(Err::<Control, Error>(e))
                    &&& final(self)@ == old(self)@
                },
            },
    {
        match read {
            Ok(c) => {
                if self.class > 0 && control_class(c.id) != self.class {
                    None
                } else {
                    self.id = c.id;
                    Some(Ok(c))
                }
            },
            Err(e) => {
                if e == Error::Io(EINVAL) {
                    None
                } else {
                    Some(Err(e))
                }
            },
        }
    }
}

/// A value that a control can be set to, as the signed 64-bit value sent to the driver.
pub trait Settable {
    spec fn unified(&self) -> i64;

    fn unify(&self) -> (r: i64)
        ensures
            r == self.unified(),
    ;
}

impl Settable for i64 {
    open spec fn unified(&self) -> i64 {
        *self
    }

    fn unify(&self) -> (r: i64) {
        *self
    }
}

impl Settable for i32 {
    open spec fn unified(&self) -> i64 {
        *self as i64
    }

    fn unify(&self) -> (r: i64) {
        *self as i64
    }
}

impl Settable for u32 {
    open spec fn unified(&self) -> i64 {
        *self as i64
    }

    fn unify(&self) -> (r: i64) {
        *self as i64
    }
}

impl Settable for bool {
    open spec fn unified(&self) -> i64 {
        if *self {
            1
        } else {
            0
        }
    }

    fn unify(&self) -> (r: i64) {
        if *self {
            1
        } else {
            0
        }
    }
}

/// The header of an extended get or set (`VIDIOC_G_EXT_CTRLS`, `VIDIOC_S_EXT_CTRLS`) of
/// the one control `ctrl`, in that control's class; `controls` is the address of `ctrl`'s
/// record.
pub fn ext_controls_for(ctrl: &ExtControl, controls: u64) -> (r: ExtControls)
    ensures
        r == (ExtControls { ctrl_class: class_of(ctrl.id), count: 1, error_idx: 0, controls }),
{
    ExtControls::new(control_class(ctrl.id), controls)
}

/// The control record that sets control `id` to `value`, sent with `VIDIOC_S_EXT_CTRLS`
/// under the header `ext_controls_for` gives.
pub fn set_request<T: Settable>(id: u32, value: &T) -> (r: ExtControl)
    ensures
        r == (ExtControl { id, size: 0, value: value.unified() }),
{
    let mut ctrl = ExtControl::new(id, 0);
    ctrl.value = value.unify();
    ctrl
}

/// A control set to `v` and read back from a driver that keeps the value it was sent
/// reads `v`: for integer, boolean and menu controls.
pub proof fn lemma_set_then_get_integer(v: i32, read: ControlQueryView, d: CtrlData)
    requires
        read.query.qtype == CTRL_TYPE_INTEGER,
        read.value == v.unified() as i32,
        data_matches(d, read),
    ensures
        d matches CtrlData::Integer { value, .. } && value == v,
{
}

/// See `lemma_set_then_get_integer`.
pub proof fn lemma_set_then_get_boolean(v: bool, read: ControlQueryView, d: CtrlData)
    requires
        read.query.qtype == CTRL_TYPE_BOOLEAN,
        read.value == v.unified() as i32,
        data_matches(d, read),
    ensures
        d matches CtrlData::Boolean { value, .. } && value == v,
{
}

/// See `lemma_set_then_get_integer`; a menu control is set by item index.
pub proof fn lemma_set_then_get_menu(v: u32, read: ControlQueryView, d: CtrlData)
    requires
        read.query.qtype == CTRL_TYPE_MENU,
        read.value == v.unified() as i32,
        data_matches(d, read),
    ensures
        d matches CtrlData::Menu { value, .. } && value == v,
{
    assert(((v as i64) as i32) as u32 == v) by (bit_vector);
}

/// A read at `v` given `replies` in turn, as `ControlQuery::answer` takes them: it stops
/// when it is done, when it fails, or at a reply of the wrong kind.
pub open spec fn read_run(
    v: ControlQueryView,
    replies: Seq<core::result::Result<CtrlAnswer, i32>>,
) -> ControlQueryView
    decreases replies.len(),
{
    if replies.len() == 0 || v.stage is Done || read_failure(v, replies[0]) is Some || (
    replies[0] is Ok && !answers(v.stage, replies[0]->Ok_0)) {
        v
    } else {
        read_run(read_after(v, replies[0]), replies.drop_first())
    }
}

/// Once its value is read, a read of a menu control keeps that value and the control's
/// query through any number of menu items, whatever the driver answers for them.
pub proof fn lemma_menu_items_keep_value(
    v: ControlQueryView,
    replies: Seq<core::result::Result<CtrlAnswer, i32>>,
)
    requires
        v.stage is MenuItem || v.stage is Done,
    ensures
        read_run(v, replies).value == v.value,
        read_run(v, replies).query == v.query,
    decreases replies.len(),
{
    if !(replies.len() == 0 || v.stage is Done || read_failure(v, replies[0]) is Some || (
    replies[0] is Ok && !answers(v.stage, replies[0]->Ok_0))) {
        lemma_menu_items_keep_value(read_after(v, replies[0]), replies.drop_first());
    }
}

/// A menu control set to item `x` and read back from a driver that keeps the value it was
/// sent reads `x`, over any range of menu items.
pub proof fn lemma_set_then_get_menu_any_range(
    x: u32,
    v: ControlQueryView,
    replies: Seq<core::result::Result<CtrlAnswer, i32>>,
    d: CtrlData,
)
    requires
        v.query.qtype == CTRL_TYPE_MENU,
        v.stage == stage_after_value(v.query),
        v.value == x.unified() as i32,
        read_run(v, replies).stage is Done,
        data_matches(d, read_run(v, replies)),
    ensures
        d matches CtrlData::Menu { value, .. } && value == x,
{
    lemma_menu_items_keep_value(v, replies);
    lemma_set_then_get_menu(x, read_run(v, replies), d);
}

} // verus!
